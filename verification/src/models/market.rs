use vstd::prelude::*;

verus! {

#[derive(Clone, Copy, Debug, PartialEq, Eq, Structural)]
pub enum OrderSide {
    Buy,
    Sell,
}

#[derive(Clone, Copy, Debug, PartialEq, Eq, Structural)]
pub enum OrderType {
    Limit,
    Market,
}

#[derive(Clone, Copy, Debug, PartialEq, Eq, Structural)]
pub enum OrderStatus {
    Open,
    PartiallyFilled,
    Filled,
    Cancelled,
}

/// An order of the market; `id` is the 128-bit value of its UUID.
pub struct Order {
    pub id: u128,
    pub player_id: String,
    pub good_name: String,
    pub side: OrderSide,
    pub order_type: OrderType,
    pub price: Option<u64>,
    pub quantity: u64,
    pub filled_quantity: u64,
    pub status: OrderStatus,
    pub station_planet_id: String,
    pub created_at: u64,
}

impl Order {
    /// Quantity not filled yet.
    pub fn remaining(&self) -> (r: u64)
        requires
            self.filled_quantity <= self.quantity,
        ensures
            r == self.quantity - self.filled_quantity,
            r + self.filled_quantity == self.quantity,
    {
        self.quantity - self.filled_quantity
    }
}

/// A trade between two orders; `id` is the 128-bit value of its UUID.
pub struct TradeEvent {
    pub id: u128,
    pub good_name: String,
    pub price: u64,
    pub quantity: u64,
    pub buyer_id: String,
    pub seller_id: String,
    pub buyer_station: String,
    pub seller_station: String,
    pub timestamp: u64,
}

/// Body of a request that places an order.
pub struct PlaceOrderRequest {
    pub good_name: String,
    pub side: OrderSide,
    pub order_type: OrderType,
    pub price: Option<u64>,
    pub quantity: u64,
    pub station_planet_id: String,
}

/// Aggregated orders at one price.
pub struct PriceLevel {
    pub price: u64,
    pub total_quantity: u64,
    pub order_count: u32,
}

/// The book of one good.
pub struct OrderBookSummary {
    pub good_name: String,
    pub bids: Vec<PriceLevel>,
    pub asks: Vec<PriceLevel>,
    pub last_trade_price: Option<u64>,
}

} // verus!
