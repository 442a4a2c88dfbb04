use vstd::prelude::*;

use crate::item::ItemDescriptor;

verus! {

/// Number of items a default-constructed inventory can hold.
pub const DEFAULT_CAPACITY: usize = 10;

/// The inventory of an entity: an ordered sequence of items, bounded by a
/// capacity that is fixed at construction time.
///
/// Order is insertion order unless changed through [`Inventory::insert_item`],
/// and indices are the addressing scheme of every operation. Every operation
/// either fully succeeds or fails and leaves the inventory unchanged.
#[derive(Debug, Clone)]
pub struct Inventory {
    /// The inventory's capacity: the largest number of items it may hold.
    pub capacity: usize,
    /// The items in the inventory, in order.
    pub items: Vec<ItemDescriptor>,
}

impl Default for Inventory {
    /// Creates an empty inventory that can hold [`DEFAULT_CAPACITY`] items.
    fn default() -> (r: Self)
        ensures
            r.capacity == DEFAULT_CAPACITY,
            r.items@ == Seq::<ItemDescriptor>::empty(),
            r.wf(),
    {
        Self {
            capacity: DEFAULT_CAPACITY,
            items: Vec::with_capacity(DEFAULT_CAPACITY),
        }
    }
}

impl Inventory {
    /// The capacity bound: an inventory never holds more items than its
    /// capacity allows.
    pub open spec fn wf(self) -> bool {
        self.items@.len() <= self.capacity
    }

    /// What [`Inventory::get_item`] returns: the item at `index`, if `index`
    /// is in range.
    pub open spec fn spec_get(self, index: int) -> Option<ItemDescriptor> {
        if 0 <= index < self.items@.len() {
            Some(self.items@[index])
        } else {
            None
        }
    }

    /// Creates a new empty inventory with the given capacity.
    pub fn with_capacity(capacity: usize) -> (r: Self)
        ensures
            r.capacity == capacity,
            r.items@ == Seq::<ItemDescriptor>::empty(),
            r.wf(),
    {
        Self {
            capacity,
            items: Vec::with_capacity(capacity),
        }
    }

    /// Adds `item` at the end of the inventory.
    ///
    /// Succeeds and appends exactly when the inventory is not yet full;
    /// a full inventory rejects the item and is left unchanged.
    pub fn add_item(&mut self, item: ItemDescriptor) -> (r: Option<()>)
        ensures
            final(self).capacity == old(self).capacity,
            r is Some <==> old(self).items@.len() < old(self).capacity,
            r is Some ==> final(self).items@ == old(self).items@.push(item),
            r is None ==> final(self).items@ == old(self).items@,
            final(self).items@ == apply_op(
                old(self).capacity as nat,
                old(self).items@,
                InventoryOp::Add(item),
            ),
            old(self).wf() ==> final(self).wf(),
    {
        if self.items.len() < self.capacity {
            self.items.push(item);
            return Some(());
        }
        None
    }

    /// Removes the item at `index`, shifting the items after it one position
    /// earlier.
    ///
    /// Succeeds exactly when `index` is in range; otherwise fails and leaves
    /// the inventory unchanged.
    pub fn remove_item(&mut self, index: usize) -> (r: Option<()>)
        ensures
            final(self).capacity == old(self).capacity,
            r is Some <==> index < old(self).items@.len(),
            r is Some ==> final(self).items@ == old(self).items@.remove(index as int),
            r is None ==> final(self).items@ == old(self).items@,
            final(self).items@ == apply_op(
                old(self).capacity as nat,
                old(self).items@,
                InventoryOp::Remove(index),
            ),
            old(self).wf() ==> final(self).wf(),
    {
        if index < self.items.len() {
            self.items.remove(index);
            return Some(());
        }
        None
    }

    /// Returns a reference to the item at `index`, or `None` when `index` is
    /// out of range.
    ///
    /// A read-only query: the result is a function of the inventory and the
    /// index alone, so repeated calls return the same item.
    pub fn get_item(&self, index: usize) -> (r: Option<&ItemDescriptor>)
        ensures
            match r {
                Some(item) => Some(*item) == self.spec_get(index as int),
                None => self.spec_get(index as int) is None,
            },
    {
        if index < self.items.len() {
            Some(&self.items[index])
        } else {
            None
        }
    }

    /// Inserts `item` at `index`, shifting the items at and after `index` one
    /// position later.
    ///
    /// Succeeds exactly when `index` is in range and the inventory is not yet
    /// full; otherwise fails and leaves the inventory unchanged. The capacity
    /// check makes the capacity bound an invariant of every operation: like
    /// [`Inventory::add_item`], a full inventory rejects the new item.
    pub fn insert_item(&mut self, index: usize, item: ItemDescriptor) -> (r: Option<()>)
        ensures
            final(self).capacity == old(self).capacity,
            r is Some <==> (index < old(self).items@.len()
                && old(self).items@.len() < old(self).capacity),
            r is Some ==> final(self).items@ == old(self).items@.insert(index as int, item),
            r is None ==> final(self).items@ == old(self).items@,
            final(self).items@ == apply_op(
                old(self).capacity as nat,
                old(self).items@,
                InventoryOp::Insert(index, item),
            ),
            old(self).wf() ==> final(self).wf(),
    {
        if index < self.items.len() && self.items.len() < self.capacity {
            self.items.insert(index, item);
            return Some(());
        }
        None
    }
}

/// One mutating call against an inventory, for stating what holds of whole
/// call sequences.
pub enum InventoryOp {
    /// A call of [`Inventory::add_item`] with the given item.
    Add(ItemDescriptor),
    /// A call of [`Inventory::remove_item`] with the given index.
    Remove(usize),
    /// A call of [`Inventory::insert_item`] with the given index and item.
    Insert(usize, ItemDescriptor),
}

/// The item sequence after one operation against an inventory with the given
/// capacity: exactly the effect that the contracts of [`Inventory::add_item`],
/// [`Inventory::remove_item`] and [`Inventory::insert_item`] state, a failed
/// operation leaving the sequence unchanged.
pub open spec fn apply_op(
    capacity: nat,
    items: Seq<ItemDescriptor>,
    op: InventoryOp,
) -> Seq<ItemDescriptor> {
    match op {
        InventoryOp::Add(item) => if items.len() < capacity {
            items.push(item)
        } else {
            items
        },
        InventoryOp::Remove(index) => if index < items.len() {
            items.remove(index as int)
        } else {
            items
        },
        InventoryOp::Insert(index, item) => if index < items.len() && items.len() < capacity {
            items.insert(index as int, item)
        } else {
            items
        },
    }
}

/// The item sequence after a whole sequence of operations, applied in order.
pub open spec fn apply_ops(
    capacity: nat,
    items: Seq<ItemDescriptor>,
    ops: Seq<InventoryOp>,
) -> Seq<ItemDescriptor>
    decreases ops.len(),
{
    if ops.len() == 0 {
        items
    } else {
        apply_ops(capacity, apply_op(capacity, items, ops[0]), ops.subrange(1, ops.len() as int))
    }
}

/// What a successful remove does, item by item: the length drops by one,
/// exactly the item at `index` is gone, the items before `index` stay where
/// they were, and the items after it move one position earlier, keeping their
/// relative order.
pub proof fn lemma_remove_shifts(items: Seq<ItemDescriptor>, index: int)
    requires
        0 <= index < items.len(),
    ensures
        items.remove(index).len() == items.len() - 1,
        forall|j: int| 0 <= j < index ==> items.remove(index)[j] == items[j],
        forall|j: int| index <= j < items.len() - 1 ==> items.remove(index)[j] == items[j + 1],
{
}

/// What a successful insert does, item by item: the length grows by one,
/// `item` stands at `index`, the items before `index` stay where they were,
/// and the items previously at and after `index` move one position later.
pub proof fn lemma_insert_shifts(items: Seq<ItemDescriptor>, index: int, item: ItemDescriptor)
    requires
        0 <= index <= items.len(),
    ensures
        items.insert(index, item).len() == items.len() + 1,
        items.insert(index, item)[index] == item,
        forall|j: int| 0 <= j < index ==> items.insert(index, item)[j] == items[j],
        forall|j: int| index <= j < items.len() ==> items.insert(index, item)[j + 1] == items[j],
{
}

/// The capacity bound survives any sequence of operations: starting from an
/// item sequence within capacity — as every constructor ensures — no sequence
/// of add, remove and insert calls pushes the length past the capacity.
pub proof fn lemma_ops_preserve_capacity(
    capacity: nat,
    items: Seq<ItemDescriptor>,
    ops: Seq<InventoryOp>,
)
    requires
        items.len() <= capacity,
    ensures
        apply_ops(capacity, items, ops).len() <= capacity,
    decreases ops.len(),
{
    if ops.len() > 0 {
        lemma_ops_preserve_capacity(
            capacity,
            apply_op(capacity, items, ops[0]),
            ops.subrange(1, ops.len() as int),
        );
    }
}

} // verus!
