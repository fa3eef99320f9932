use vstd::prelude::*;

use crate::inventory::Inventory;

verus! {

/// Where a ship stands in its journey.
#[derive(Clone, Copy, Debug, PartialEq, Eq, Structural)]
pub enum ShipStatus {
    InTransitToOrigin,
    AwaitingOriginDockingAuth,
    Loading,
    AwaitingOriginUndockingAuth,
    InTransit,
    AwaitingDockingAuth,
    Unloading,
    AwaitingUndockingAuth,
    Complete,
}

/// A cargo ship; ids are the 128-bit values of UUIDs and times are
/// milliseconds since the Unix epoch.
pub struct Ship {
    pub id: u128,
    pub owner_id: String,
    pub origin_planet_id: String,
    pub destination_planet_id: String,
    pub cargo: Inventory,
    pub status: ShipStatus,
    pub trade_id: Option<u128>,
    pub trucking_id: Option<u128>,
    pub fee: Option<u64>,
    pub created_at: u64,
    pub arrival_at: Option<u64>,
    pub operation_complete_at: Option<u64>,
}

/// Body of a request that sends goods between two stations.
pub struct CreateShipRequest {
    pub origin_planet_id: String,
    pub destination_planet_id: String,
    pub cargo: Inventory,
}

/// Body of a request that hires a trucking ship.
pub struct CreateTruckingRequest {
    pub destination_planet_id: String,
    pub origin_planet_id: String,
    pub cargo: Inventory,
}

/// Answer of a station owner to a docking request.
pub struct DockRequest {
    pub authorized: bool,
}

/// Answer of a station owner to an undocking request.
pub struct UndockRequest {
    pub authorized: bool,
}

/// Notifications sent about a ship.
pub enum ShipWebhookPayload {
    OriginDockingRequest {
        ship_id: u128,
        origin_planet_id: String,
        destination_planet_id: String,
        cargo: Inventory,
    },
    DockingRequest { ship_id: u128, origin_planet_id: String, cargo: Inventory },
    ShipDocked { ship_id: u128, status: String },
    ShipComplete { ship_id: u128 },
}

} // verus!
