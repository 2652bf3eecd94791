//! The bag a character carries its items in.

use vstd::prelude::*;

use crate::item::Item;

verus! {

/// A container that holds a bounded number of items.
pub struct Inventory {
    capacity: usize,
    items: Vec<Item>,
}

/// What an inventory is, mathematically: its capacity and the items in it.
pub struct InventoryView {
    /// The number of items the inventory has room for
    pub capacity: nat,
    /// The items in the inventory
    pub items: Seq<Item>,
}

impl View for Inventory {
    type V = InventoryView;

    closed spec fn view(&self) -> InventoryView {
        InventoryView { capacity: self.capacity as nat, items: self.items@ }
    }
}

impl Inventory {
    /// An inventory never holds more items than it has room for.
    #[verifier::type_invariant]
    spec fn within_capacity(&self) -> bool {
        self.items@.len() <= self.capacity
    }

    /// An empty inventory with room for `capacity` items.
    pub fn new(capacity: usize) -> (inventory: Inventory)
        ensures
            inventory@ == (InventoryView { capacity: capacity as nat, items: Seq::empty() }),
    {
        Inventory { capacity, items: Vec::new() }
    }

    /// The number of items the inventory has room for.
    pub fn capacity(&self) -> (capacity: usize)
        ensures
            capacity == self@.capacity,
    {
        self.capacity
    }

    /// The number of items in the inventory.
    pub fn len(&self) -> (len: usize)
        ensures
            len == self@.items.len(),
            len <= self@.capacity,
    {
        proof {
            use_type_invariant(self);
        }
        self.items.len()
    }
}

} // verus!
