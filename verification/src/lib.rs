//! A bounded-capacity inventory for a game entity.
//!
//! [`Inventory`] owns an ordered sequence of [`ItemDescriptor`]s together with
//! a capacity fixed at construction time. Its operations — add, remove, get
//! and insert-at-index — enforce the capacity bound and the index bounds, and
//! each either fully succeeds or leaves the inventory unchanged.

pub mod inventory;
pub mod item;

pub use inventory::Inventory;
pub use inventory::InventoryOp;
pub use inventory::DEFAULT_CAPACITY;
pub use item::ItemDescriptor;
