//! The data model of the galaxy, its players, ships, markets and projects.
pub mod construction;
pub mod market;
pub mod planet;
pub mod player;
pub mod settlement;
pub mod ship;
pub mod station;
pub mod system;
pub mod trade;
pub mod warehouse;

pub use construction::{ProjectType, ProjectStatus, ConstructionProject, InstallStationRequest, FoundSettlementRequest, StationUpgradeType, UpgradeStationRequest, UpgradeElevatorRequest, ConstructionWebhookPayload};
pub use market::{OrderSide, OrderType, OrderStatus, Order, TradeEvent, PlaceOrderRequest, PriceLevel, OrderBookSummary};
pub use planet::{PlanetStatus, ClimateType, GasGiantType, PlanetType, Planet, CreatePlanetRequest, UpdatePlanetRequest};
pub use player::{Player, LeaderboardEntry, PlayerPublic, UpdatePlayerRequest};
pub use settlement::{Economy, Settlement, CreateSettlementRequest, UpdateSettlementRequest};
pub use ship::{ShipStatus, Ship, CreateShipRequest, CreateTruckingRequest, DockRequest, UndockRequest, ShipWebhookPayload};
pub use station::{default_docking_bays, default_max_storage, default_cabin_count, MassDriver, SpaceElevator, Station, CreateStationRequest, UpdateStationRequest};
pub use system::{StarType, Coordinates, System, CreateSystemRequest, UpdateSystemRequest};
pub use trade::{TradeDirection, TradeRequestMode, TradeRequestStatus, TradeRequest, CreateTradeRequestBody};
pub use warehouse::{Warehouse};
