use vstd::prelude::*;

use crate::inventory::Inventory;

use super::warehouse::Warehouse;

verus! {

/// Docking bays of a station whose record does not say.
pub fn default_docking_bays() -> (r: u32)
    ensures
        r == 2,
{
    2
}

/// Storage limit of a station whose record does not say: unlimited.
pub fn default_max_storage() -> (r: u64)
    ensures
        r == u64::MAX,
{
    u64::MAX
}

/// Cabins of a newly built space elevator.
pub fn default_cabin_count() -> (r: u32)
    ensures
        r == 2,
{
    2
}

/// The launcher of a station, with its number of channels.
pub struct MassDriver {
    pub channels: u32,
}

impl MassDriver {
    /// A mass driver with `channels` channels.
    pub fn new(channels: u32) -> (r: MassDriver)
        ensures
            r.channels == channels,
    {
        MassDriver { channels }
    }
}

/// The elevator between a planet's surface and its station.
pub struct SpaceElevator {
    pub warehouse: Warehouse,
    pub cabin_count: u32,
}

/// An orbital station.
pub struct Station {
    pub name: String,
    pub owner_id: String,
    pub inventory: Inventory,
    pub mass_driver: Option<MassDriver>,
    pub docking_bays: u32,
    pub max_storage: u64,
}

/// Body of a request that builds or replaces a station.
pub struct CreateStationRequest {
    pub name: String,
    pub owner_id: String,
}

/// Body of a request that changes a station.
pub struct UpdateStationRequest {
    pub name: Option<String>,
    pub owner_id: Option<String>,
}

} // verus!
