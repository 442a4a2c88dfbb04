use vstd::prelude::*;

verus! {

/// One item held by an inventory.
///
/// The inventory treats an item as an opaque payload: it stores, returns and
/// moves items without ever reading them. The identifier stands for whatever
/// item data the host game attaches to it.
#[derive(Clone, Copy, Debug, PartialEq, Eq, Structural)]
pub struct ItemDescriptor {
    /// Identifier of the item this descriptor stands for.
    pub id: u64,
}

} // verus!
