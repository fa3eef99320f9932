use vstd::prelude::*;

pub use crate::inventory::Inventory;

verus! {

/// Goods stored at the foot of a space elevator.
pub struct Warehouse {
    pub owner_id: String,
    pub inventory: Inventory,
}

impl Warehouse {
    /// An empty warehouse of `owner_id`.
    pub fn empty(owner_id: String) -> (r: Warehouse)
        ensures
            r.owner_id == owner_id,
            r.inventory@ == Map::<Seq<char>, u64>::empty(),
    {
        Warehouse { owner_id, inventory: Inventory::new() }
    }
}

} // verus!
