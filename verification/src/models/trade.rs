use vstd::prelude::*;

verus! {

/// Whether a trade request moves goods off or onto the planet.
#[derive(Clone, Copy, Debug, PartialEq, Eq, Structural)]
pub enum TradeDirection {
    Export,
    Import,
}

/// How long a trade request runs.
#[derive(Clone, Copy, Debug, PartialEq, Eq, Structural)]
pub enum TradeRequestMode {
    FixedRate,
    Standing,
    Threshold,
}

#[derive(Clone, Copy, Debug, PartialEq, Eq, Structural)]
pub enum TradeRequestStatus {
    Active,
    Completed,
    Cancelled,
    AutoCancelled,
}

/// A standing order that changes a settlement's supply or demand each tick;
/// `id` is the 128-bit value of its UUID, times are Unix milliseconds.
pub struct TradeRequest {
    pub id: u128,
    pub owner_id: String,
    pub planet_id: String,
    pub good_name: String,
    pub direction: TradeDirection,
    pub mode: TradeRequestMode,
    pub rate_per_tick: u64,
    pub total_quantity: Option<u64>,
    pub target_level: Option<u64>,
    pub cumulative_generated: u64,
    pub status: TradeRequestStatus,
    pub created_at: u64,
    pub completed_at: Option<u64>,
}

/// Body of a request that opens a trade request.
pub struct CreateTradeRequestBody {
    pub planet_id: String,
    pub good_name: String,
    pub direction: TradeDirection,
    pub mode: TradeRequestMode,
    pub rate_per_tick: u64,
    pub total_quantity: Option<u64>,
    pub target_level: Option<u64>,
}

} // verus!
