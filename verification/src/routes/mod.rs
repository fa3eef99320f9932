//! What each endpoint of the server does to the game state.
pub mod construction;
pub mod planets;
pub mod players;
pub mod settlements;
pub mod ships;
pub mod stations;
pub mod trade;
pub mod systems;
pub mod persistence;
