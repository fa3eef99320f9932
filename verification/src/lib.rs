//! Game-state logic of an offworld trading server.
pub mod config;
pub mod error;
pub mod galaxy;
pub mod ids;
pub mod inventory;
pub mod laws;
pub mod models;
pub mod routes;
pub mod ship_lifecycle;
pub mod text;
pub mod time;
pub mod trade_lifecycle;
