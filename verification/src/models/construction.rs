use vstd::prelude::*;

use crate::inventory::Inventory;

verus! {

#[derive(Clone, Copy, Debug, PartialEq, Eq, Structural)]
pub enum ProjectType {
    InstallStation,
    FoundSettlement,
    UpgradeDockingBays,
    UpgradeMassDriverChannels,
    UpgradeStorage,
    UpgradeElevatorCabins,
}

#[derive(Clone, Copy, Debug, PartialEq, Eq, Structural)]
pub enum ProjectStatus {
    InTransit,
    Building,
    Complete,
}

/// A construction paid by a player; `id` is the 128-bit value of its UUID,
/// times are Unix milliseconds.
pub struct ConstructionProject {
    pub id: u128,
    pub owner_id: String,
    pub project_type: ProjectType,
    pub source_planet_id: String,
    pub target_planet_id: String,
    pub fee: u64,
    pub goods_consumed: Inventory,
    pub extra_goods: Inventory,
    pub status: ProjectStatus,
    pub created_at: u64,
    pub completion_at: u64,
    pub station_name: Option<String>,
    pub settlement_name: Option<String>,
}

/// Body of a request that installs a station on a settled planet.
pub struct InstallStationRequest {
    pub source_planet_id: String,
    pub target_planet_id: String,
    pub station_name: String,
}

/// Body of a request that founds a settlement on an uninhabited planet.
pub struct FoundSettlementRequest {
    pub source_planet_id: String,
    pub target_planet_id: String,
    pub settlement_name: String,
    pub station_name: String,
    pub extra_goods: Inventory,
}

#[derive(Clone, Copy, Debug, PartialEq, Eq, Structural)]
pub enum StationUpgradeType {
    DockingBays,
    MassDriverChannels,
    Storage,
}

/// Body of a request that upgrades a station.
pub struct UpgradeStationRequest {
    pub planet_id: String,
    pub upgrade_type: StationUpgradeType,
}

/// Body of a request that adds a cabin to a space elevator.
pub struct UpgradeElevatorRequest {
    pub planet_id: String,
}

/// Notification sent when a project completes.
pub enum ConstructionWebhookPayload {
    ConstructionComplete { project_id: u128, project_type: ProjectType, target_planet_id: String },
}

} // verus!
