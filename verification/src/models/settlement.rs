use vstd::prelude::*;

use crate::inventory::Inventory;

verus! {

/// What a settlement produces and consumes.
pub struct Economy {
    pub supply: Inventory,
    pub demand: Inventory,
}

impl Economy {
    /// An economy without supply or demand.
    pub fn empty() -> (r: Economy)
        ensures
            r.supply@ == Map::<Seq<char>, u64>::empty(),
            r.demand@ == Map::<Seq<char>, u64>::empty(),
    {
        Economy { supply: Inventory::new(), demand: Inventory::new() }
    }
}

/// A population living on a planet.
pub struct Settlement {
    pub name: String,
    pub population: u64,
    pub economy: Economy,
    pub founding_goods: Inventory,
}

/// Body of a request that creates or replaces a settlement.
pub struct CreateSettlementRequest {
    pub name: String,
    pub population: Option<u64>,
}

/// Body of a request that changes a settlement.
pub struct UpdateSettlementRequest {
    pub name: Option<String>,
    pub population: Option<u64>,
}

} // verus!
