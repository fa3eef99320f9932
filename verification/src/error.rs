//! Errors of the game logic and the HTTP status each one is answered with.
use vstd::prelude::*;

use crate::text::{append_i64, append_str, append_u64};

verus! {

pub enum MassDriverError {
    ConnectionNotFound(String),
    NoChannelAvailable(String),
    DifferentSystems,
    PlanetNotConnected(String),
    InvalidConnectionState,
    PacketTooLarge { size: u64, max: u64 },
    InsufficientInventory { good_name: String, requested: u64, available: u64 },
    ConnectionNotActive,
    SameStation,
}

pub enum ShipError {
    ShipNotFound(String),
    InvalidShipState,
    NotStationOwner,
    InsufficientCargo { good_name: String, requested: u64, available: u64 },
    SameStation,
}

#[allow(inconsistent_fields)]
pub enum MarketError {
    InsufficientCredits { needed: i64, available: i64 },
    InsufficientInventory { good_name: String, requested: u64, available: u64 },
    OrderNotFound(String),
    OrderNotCancellable,
    NoMatchForMarketOrder,
    PriceRequired,
    StationNotFoundForOrder(String),
}

pub enum SpaceElevatorError {
    NoCabinAvailable,
    InsufficientStock { good_name: String, requested: u64, available: u64 },
    ExceedsCapacity { requested: u64, capacity: u64 },
    EmptyTransfer,
}

#[allow(inconsistent_fields)]
pub enum ConstructionError {
    SamePlanet,
    SourceStationNotFound(String),
    NotSourceStationOwner,
    NotTargetStationOwner,
    TargetPlanetNotFound(String),
    TargetAlreadyConnected(String),
    TargetNotSettled(String),
    TargetNotUninhabited(String),
    InsufficientCredits { needed: u64, available: i64 },
    InsufficientGoods { good_name: String, requested: u64, available: u64 },
    NoMassDriver,
    ProjectNotFound(String),
}

pub enum TradeRequestError {
    ZeroRate,
    TotalQuantityRequired,
    TargetLevelRequired,
    NotStationOwner(String),
    PlanetNotConnected(String),
    RequestNotFound(String),
    RequestNotActive(String),
}

/// Error answered by the star-system endpoints, which carry no message.
#[derive(Clone, Copy, Debug, PartialEq, Eq, Structural)]
pub enum SystemsError {
    Conflict,
    NotFound,
}

pub enum AppError {
    SystemNotFound(String),
    PlanetNotFound(String),
    SettlementNotFound(String),
    StationNotFound(String),
    PlanetAlreadyExists(String),
    SettlementRequired(String),
    NotConnected(String),
    SpaceElevator(SpaceElevatorError),
    MassDriver(MassDriverError),
    PlayerNotFound(String),
    Unauthorized,
    Forbidden,
    Ship(ShipError),
    Market(MarketError),
    StationHasActiveShips(String),
    Construction(ConstructionError),
    TradeRequest(TradeRequestError),
    Internal(String),
}

impl From<SpaceElevatorError> for AppError {
    fn from(e: SpaceElevatorError) -> (r: AppError) {
        AppError::SpaceElevator(e)
    }
}

impl vstd::std_specs::convert::FromSpecImpl<SpaceElevatorError> for AppError {
    open spec fn obeys_from_spec() -> bool {
        true
    }

    open spec fn from_spec(e: SpaceElevatorError) -> AppError {
        AppError::SpaceElevator(e)
    }
}

impl From<MassDriverError> for AppError {
    fn from(e: MassDriverError) -> (r: AppError) {
        AppError::MassDriver(e)
    }
}

impl vstd::std_specs::convert::FromSpecImpl<MassDriverError> for AppError {
    open spec fn obeys_from_spec() -> bool {
        true
    }

    open spec fn from_spec(e: MassDriverError) -> AppError {
        AppError::MassDriver(e)
    }
}

impl From<ShipError> for AppError {
    fn from(e: ShipError) -> (r: AppError) {
        AppError::Ship(e)
    }
}

impl vstd::std_specs::convert::FromSpecImpl<ShipError> for AppError {
    open spec fn obeys_from_spec() -> bool {
        true
    }

    open spec fn from_spec(e: ShipError) -> AppError {
        AppError::Ship(e)
    }
}

impl From<MarketError> for AppError {
    fn from(e: MarketError) -> (r: AppError) {
        AppError::Market(e)
    }
}

impl vstd::std_specs::convert::FromSpecImpl<MarketError> for AppError {
    open spec fn obeys_from_spec() -> bool {
        true
    }

    open spec fn from_spec(e: MarketError) -> AppError {
        AppError::Market(e)
    }
}

impl From<ConstructionError> for AppError {
    fn from(e: ConstructionError) -> (r: AppError) {
        AppError::Construction(e)
    }
}

impl vstd::std_specs::convert::FromSpecImpl<ConstructionError> for AppError {
    open spec fn obeys_from_spec() -> bool {
        true
    }

    open spec fn from_spec(e: ConstructionError) -> AppError {
        AppError::Construction(e)
    }
}

impl From<TradeRequestError> for AppError {
    fn from(e: TradeRequestError) -> (r: AppError) {
        AppError::TradeRequest(e)
    }
}

impl vstd::std_specs::convert::FromSpecImpl<TradeRequestError> for AppError {
    open spec fn obeys_from_spec() -> bool {
        true
    }

    open spec fn from_spec(e: TradeRequestError) -> AppError {
        AppError::TradeRequest(e)
    }
}

pub open spec fn space_elevator_status(e: SpaceElevatorError) -> u16 {
    match e {
        SpaceElevatorError::NoCabinAvailable => 503,
        _ => 400,
    }
}

pub open spec fn mass_driver_status(e: MassDriverError) -> u16 {
    match e {
        MassDriverError::ConnectionNotFound(_) => 404,
        MassDriverError::NoChannelAvailable(_) => 503,
        MassDriverError::InvalidConnectionState => 409,
        MassDriverError::ConnectionNotActive => 409,
        _ => 400,
    }
}

pub open spec fn ship_status(e: ShipError) -> u16 {
    match e {
        ShipError::ShipNotFound(_) => 404,
        ShipError::InvalidShipState => 409,
        ShipError::NotStationOwner => 403,
        _ => 400,
    }
}

pub open spec fn market_status(e: MarketError) -> u16 {
    match e {
        MarketError::OrderNotFound(_) => 404,
        MarketError::StationNotFoundForOrder(_) => 404,
        MarketError::OrderNotCancellable => 409,
        _ => 400,
    }
}

pub open spec fn construction_status(e: ConstructionError) -> u16 {
    match e {
        ConstructionError::SourceStationNotFound(_) => 404,
        ConstructionError::TargetPlanetNotFound(_) => 404,
        ConstructionError::ProjectNotFound(_) => 404,
        ConstructionError::NotSourceStationOwner => 403,
        ConstructionError::NotTargetStationOwner => 403,
        ConstructionError::TargetAlreadyConnected(_) => 409,
        ConstructionError::TargetNotUninhabited(_) => 409,
        _ => 400,
    }
}

pub open spec fn trade_request_status(e: TradeRequestError) -> u16 {
    match e {
        TradeRequestError::NotStationOwner(_) => 403,
        TradeRequestError::RequestNotFound(_) => 404,
        TradeRequestError::RequestNotActive(_) => 409,
        _ => 400,
    }
}

/// HTTP status that answers an error.
pub open spec fn app_error_status(e: AppError) -> u16 {
    match e {
        AppError::SystemNotFound(_) => 404,
        AppError::PlanetNotFound(_) => 404,
        AppError::SettlementNotFound(_) => 404,
        AppError::StationNotFound(_) => 404,
        AppError::PlanetAlreadyExists(_) => 409,
        AppError::SettlementRequired(_) => 400,
        AppError::NotConnected(_) => 400,
        AppError::SpaceElevator(inner) => space_elevator_status(inner),
        AppError::MassDriver(inner) => mass_driver_status(inner),
        AppError::PlayerNotFound(_) => 404,
        AppError::Unauthorized => 401,
        AppError::Forbidden => 403,
        AppError::Ship(inner) => ship_status(inner),
        AppError::Market(inner) => market_status(inner),
        AppError::StationHasActiveShips(_) => 409,
        AppError::Construction(inner) => construction_status(inner),
        AppError::TradeRequest(inner) => trade_request_status(inner),
        AppError::Internal(_) => 500,
    }
}

impl SpaceElevatorError {
    pub fn status_code(&self) -> (r: u16)
        ensures
            r == space_elevator_status(*self),
    {
        match self {
            SpaceElevatorError::NoCabinAvailable => 503,
            _ => 400,
        }
    }
}

impl MassDriverError {
    pub fn status_code(&self) -> (r: u16)
        ensures
            r == mass_driver_status(*self),
    {
        match self {
            MassDriverError::ConnectionNotFound(_) => 404,
            MassDriverError::NoChannelAvailable(_) => 503,
            MassDriverError::DifferentSystems => 400,
            MassDriverError::PlanetNotConnected(_) => 400,
            MassDriverError::InvalidConnectionState => 409,
            MassDriverError::PacketTooLarge { .. } => 400,
            MassDriverError::InsufficientInventory { .. } => 400,
            MassDriverError::ConnectionNotActive => 409,
            MassDriverError::SameStation => 400,
        }
    }
}

impl ShipError {
    pub fn status_code(&self) -> (r: u16)
        ensures
            r == ship_status(*self),
    {
        match self {
            ShipError::ShipNotFound(_) => 404,
            ShipError::InvalidShipState => 409,
            ShipError::NotStationOwner => 403,
            ShipError::InsufficientCargo { .. } => 400,
            ShipError::SameStation => 400,
        }
    }
}

impl MarketError {
    pub fn status_code(&self) -> (r: u16)
        ensures
            r == market_status(*self),
    {
        match self {
            MarketError::InsufficientCredits { .. } => 400,
            MarketError::InsufficientInventory { .. } => 400,
            MarketError::OrderNotFound(_) => 404,
            MarketError::OrderNotCancellable => 409,
            MarketError::NoMatchForMarketOrder => 400,
            MarketError::PriceRequired => 400,
            MarketError::StationNotFoundForOrder(_) => 404,
        }
    }
}

impl ConstructionError {
    pub fn status_code(&self) -> (r: u16)
        ensures
            r == construction_status(*self),
    {
        match self {
            ConstructionError::SourceStationNotFound(_) => 404,
            ConstructionError::TargetPlanetNotFound(_) => 404,
            ConstructionError::ProjectNotFound(_) => 404,
            ConstructionError::NotSourceStationOwner => 403,
            ConstructionError::NotTargetStationOwner => 403,
            ConstructionError::TargetAlreadyConnected(_) => 409,
            ConstructionError::TargetNotUninhabited(_) => 409,
            _ => 400,
        }
    }
}

impl TradeRequestError {
    pub fn status_code(&self) -> (r: u16)
        ensures
            r == trade_request_status(*self),
    {
        match self {
            TradeRequestError::NotStationOwner(_) => 403,
            TradeRequestError::RequestNotFound(_) => 404,
            TradeRequestError::RequestNotActive(_) => 409,
            _ => 400,
        }
    }
}

impl SystemsError {
    pub fn status_code(&self) -> (r: u16)
        ensures
            *self == SystemsError::Conflict ==> r == 409,
            *self == SystemsError::NotFound ==> r == 404,
    {
        match self {
            SystemsError::Conflict => 409,
            SystemsError::NotFound => 404,
        }
    }
}

impl AppError {
    /// HTTP status that answers this error.
    pub fn status_code(&self) -> (r: u16)
        ensures
            r == app_error_status(*self),
    {
        match self {
            AppError::SystemNotFound(_) => 404,
            AppError::PlanetNotFound(_) => 404,
            AppError::SettlementNotFound(_) => 404,
            AppError::StationNotFound(_) => 404,
            AppError::PlanetAlreadyExists(_) => 409,
            AppError::SettlementRequired(_) => 400,
            AppError::NotConnected(_) => 400,
            AppError::SpaceElevator(e) => e.status_code(),
            AppError::MassDriver(e) => e.status_code(),
            AppError::PlayerNotFound(_) => 404,
            AppError::Unauthorized => 401,
            AppError::Forbidden => 403,
            AppError::Ship(e) => e.status_code(),
            AppError::Market(e) => e.status_code(),
            AppError::StationHasActiveShips(_) => 409,
            AppError::Construction(e) => e.status_code(),
            AppError::TradeRequest(e) => e.status_code(),
            AppError::Internal(_) => 500,
        }
    }
}


/// The message that answers `e`.
pub open spec fn space_elevator_message(e: SpaceElevatorError) -> Seq<char> {
    match e {
        SpaceElevatorError::NoCabinAvailable => "No cabin available"@,
        SpaceElevatorError::InsufficientStock { good_name, requested, available } => "Insufficient stock: "@ + good_name@ + " (need "@ + crate::text::decimal(requested as nat) + ", have "@ + crate::text::decimal(available as nat) + ")"@,
        SpaceElevatorError::ExceedsCapacity { requested, capacity } => "Transfer exceeds cabin capacity: "@ + crate::text::decimal(requested as nat) + " > "@ + crate::text::decimal(capacity as nat),
        SpaceElevatorError::EmptyTransfer => "Transfer is empty"@,
    }
}

impl SpaceElevatorError {
    /// The message that answers this error.
    pub fn message(&self) -> (r: String)
        ensures
            r@ == space_elevator_message(*self),
    {
        match self {
            SpaceElevatorError::NoCabinAvailable => "No cabin available".to_owned(),
            SpaceElevatorError::InsufficientStock { good_name, requested, available } => {
                let mut s = "Insufficient stock: ".to_owned();
                append_str(&mut s, good_name.as_str());
                append_str(&mut s, " (need ");
                append_u64(&mut s, *requested);
                append_str(&mut s, ", have ");
                append_u64(&mut s, *available);
                append_str(&mut s, ")");
                s
            },
            SpaceElevatorError::ExceedsCapacity { requested, capacity } => {
                let mut s = "Transfer exceeds cabin capacity: ".to_owned();
                append_u64(&mut s, *requested);
                append_str(&mut s, " > ");
                append_u64(&mut s, *capacity);
                s
            },
            SpaceElevatorError::EmptyTransfer => "Transfer is empty".to_owned(),
        }
    }
}

/// The message that answers `e`.
pub open spec fn mass_driver_message(e: MassDriverError) -> Seq<char> {
    match e {
        MassDriverError::ConnectionNotFound(x) => "Connection not found: "@ + x@,
        MassDriverError::NoChannelAvailable(x) => "No channel available on station at planet: "@ + x@,
        MassDriverError::DifferentSystems => "Planets are in different systems"@,
        MassDriverError::PlanetNotConnected(x) => "Planet is not connected: "@ + x@,
        MassDriverError::InvalidConnectionState => "Invalid connection state for this action"@,
        MassDriverError::PacketTooLarge { size, max } => "Packet too large: "@ + crate::text::decimal(size as nat) + " > "@ + crate::text::decimal(max as nat) + " max"@,
        MassDriverError::InsufficientInventory { good_name, requested, available } => "Insufficient inventory: "@ + good_name@ + " (need "@ + crate::text::decimal(requested as nat) + ", have "@ + crate::text::decimal(available as nat) + ")"@,
        MassDriverError::ConnectionNotActive => "Connection is not active"@,
        MassDriverError::SameStation => "Cannot create connection to the same station"@,
    }
}

impl MassDriverError {
    /// The message that answers this error.
    pub fn message(&self) -> (r: String)
        ensures
            r@ == mass_driver_message(*self),
    {
        match self {
            MassDriverError::ConnectionNotFound(x) => {
                let mut s = "Connection not found: ".to_owned();
                append_str(&mut s, x.as_str());
                s
            },
            MassDriverError::NoChannelAvailable(x) => {
                let mut s = "No channel available on station at planet: ".to_owned();
                append_str(&mut s, x.as_str());
                s
            },
            MassDriverError::DifferentSystems => "Planets are in different systems".to_owned(),
            MassDriverError::PlanetNotConnected(x) => {
                let mut s = "Planet is not connected: ".to_owned();
                append_str(&mut s, x.as_str());
                s
            },
            MassDriverError::InvalidConnectionState => "Invalid connection state for this action".to_owned(),
            MassDriverError::PacketTooLarge { size, max } => {
                let mut s = "Packet too large: ".to_owned();
                append_u64(&mut s, *size);
                append_str(&mut s, " > ");
                append_u64(&mut s, *max);
                append_str(&mut s, " max");
                s
            },
            MassDriverError::InsufficientInventory { good_name, requested, available } => {
                let mut s = "Insufficient inventory: ".to_owned();
                append_str(&mut s, good_name.as_str());
                append_str(&mut s, " (need ");
                append_u64(&mut s, *requested);
                append_str(&mut s, ", have ");
                append_u64(&mut s, *available);
                append_str(&mut s, ")");
                s
            },
            MassDriverError::ConnectionNotActive => "Connection is not active".to_owned(),
            MassDriverError::SameStation => "Cannot create connection to the same station".to_owned(),
        }
    }
}

/// The message that answers `e`.
pub open spec fn ship_message(e: ShipError) -> Seq<char> {
    match e {
        ShipError::ShipNotFound(x) => "Ship not found: "@ + x@,
        ShipError::InvalidShipState => "Invalid ship state for this action"@,
        ShipError::NotStationOwner => "Not the owner of the destination station"@,
        ShipError::InsufficientCargo { good_name, requested, available } => "Insufficient cargo at origin station: "@ + good_name@ + " (need "@ + crate::text::decimal(requested as nat) + ", have "@ + crate::text::decimal(available as nat) + ")"@,
        ShipError::SameStation => "Cannot ship to the same station"@,
    }
}

impl ShipError {
    /// The message that answers this error.
    pub fn message(&self) -> (r: String)
        ensures
            r@ == ship_message(*self),
    {
        match self {
            ShipError::ShipNotFound(x) => {
                let mut s = "Ship not found: ".to_owned();
                append_str(&mut s, x.as_str());
                s
            },
            ShipError::InvalidShipState => "Invalid ship state for this action".to_owned(),
            ShipError::NotStationOwner => "Not the owner of the destination station".to_owned(),
            ShipError::InsufficientCargo { good_name, requested, available } => {
                let mut s = "Insufficient cargo at origin station: ".to_owned();
                append_str(&mut s, good_name.as_str());
                append_str(&mut s, " (need ");
                append_u64(&mut s, *requested);
                append_str(&mut s, ", have ");
                append_u64(&mut s, *available);
                append_str(&mut s, ")");
                s
            },
            ShipError::SameStation => "Cannot ship to the same station".to_owned(),
        }
    }
}

/// The message that answers `e`.
pub open spec fn market_message(e: MarketError) -> Seq<char> {
    match e {
        MarketError::InsufficientCredits { needed, available } => "Insufficient credits: need "@ + crate::text::signed_decimal(needed as int) + ", have "@ + crate::text::signed_decimal(available as int),
        MarketError::InsufficientInventory { good_name, requested, available } => "Insufficient inventory at station: "@ + good_name@ + " (need "@ + crate::text::decimal(requested as nat) + ", have "@ + crate::text::decimal(available as nat) + ")"@,
        MarketError::OrderNotFound(x) => "Order not found: "@ + x@,
        MarketError::OrderNotCancellable => "Order cannot be cancelled in current state"@,
        MarketError::NoMatchForMarketOrder => "No match available for market order"@,
        MarketError::PriceRequired => "Price is required for limit orders"@,
        MarketError::StationNotFoundForOrder(x) => "Station not found for order: "@ + x@,
    }
}

impl MarketError {
    /// The message that answers this error.
    pub fn message(&self) -> (r: String)
        ensures
            r@ == market_message(*self),
    {
        match self {
            MarketError::InsufficientCredits { needed, available } => {
                let mut s = "Insufficient credits: need ".to_owned();
                append_i64(&mut s, *needed);
                append_str(&mut s, ", have ");
                append_i64(&mut s, *available);
                s
            },
            MarketError::InsufficientInventory { good_name, requested, available } => {
                let mut s = "Insufficient inventory at station: ".to_owned();
                append_str(&mut s, good_name.as_str());
                append_str(&mut s, " (need ");
                append_u64(&mut s, *requested);
                append_str(&mut s, ", have ");
                append_u64(&mut s, *available);
                append_str(&mut s, ")");
                s
            },
            MarketError::OrderNotFound(x) => {
                let mut s = "Order not found: ".to_owned();
                append_str(&mut s, x.as_str());
                s
            },
            MarketError::OrderNotCancellable => "Order cannot be cancelled in current state".to_owned(),
            MarketError::NoMatchForMarketOrder => "No match available for market order".to_owned(),
            MarketError::PriceRequired => "Price is required for limit orders".to_owned(),
            MarketError::StationNotFoundForOrder(x) => {
                let mut s = "Station not found for order: ".to_owned();
                append_str(&mut s, x.as_str());
                s
            },
        }
    }
}

/// The message that answers `e`.
pub open spec fn construction_message(e: ConstructionError) -> Seq<char> {
    match e {
        ConstructionError::SamePlanet => "Source and target planets must differ"@,
        ConstructionError::SourceStationNotFound(x) => "Source station not found: "@ + x@,
        ConstructionError::NotSourceStationOwner => "Not the owner of the source station"@,
        ConstructionError::NotTargetStationOwner => "Not the owner of the target station"@,
        ConstructionError::TargetPlanetNotFound(x) => "Target planet not found: "@ + x@,
        ConstructionError::TargetAlreadyConnected(x) => "Target planet already has a station: "@ + x@,
        ConstructionError::TargetNotSettled(x) => "Target planet has no settlement: "@ + x@,
        ConstructionError::TargetNotUninhabited(x) => "Target planet is not uninhabited: "@ + x@,
        ConstructionError::InsufficientCredits { needed, available } => "Insufficient credits: need "@ + crate::text::decimal(needed as nat) + ", have "@ + crate::text::signed_decimal(available as int),
        ConstructionError::InsufficientGoods { good_name, requested, available } => "Insufficient goods at source: "@ + good_name@ + " (need "@ + crate::text::decimal(requested as nat) + ", have "@ + crate::text::decimal(available as nat) + ")"@,
        ConstructionError::NoMassDriver => "Station has no mass driver"@,
        ConstructionError::ProjectNotFound(x) => "Construction project not found: "@ + x@,
    }
}

impl ConstructionError {
    /// The message that answers this error.
    pub fn message(&self) -> (r: String)
        ensures
            r@ == construction_message(*self),
    {
        match self {
            ConstructionError::SamePlanet => "Source and target planets must differ".to_owned(),
            ConstructionError::SourceStationNotFound(x) => {
                let mut s = "Source station not found: ".to_owned();
                append_str(&mut s, x.as_str());
                s
            },
            ConstructionError::NotSourceStationOwner => "Not the owner of the source station".to_owned(),
            ConstructionError::NotTargetStationOwner => "Not the owner of the target station".to_owned(),
            ConstructionError::TargetPlanetNotFound(x) => {
                let mut s = "Target planet not found: ".to_owned();
                append_str(&mut s, x.as_str());
                s
            },
            ConstructionError::TargetAlreadyConnected(x) => {
                let mut s = "Target planet already has a station: ".to_owned();
                append_str(&mut s, x.as_str());
                s
            },
            ConstructionError::TargetNotSettled(x) => {
                let mut s = "Target planet has no settlement: ".to_owned();
                append_str(&mut s, x.as_str());
                s
            },
            ConstructionError::TargetNotUninhabited(x) => {
                let mut s = "Target planet is not uninhabited: ".to_owned();
                append_str(&mut s, x.as_str());
                s
            },
            ConstructionError::InsufficientCredits { needed, available } => {
                let mut s = "Insufficient credits: need ".to_owned();
                append_u64(&mut s, *needed);
                append_str(&mut s, ", have ");
                append_i64(&mut s, *available);
                s
            },
            ConstructionError::InsufficientGoods { good_name, requested, available } => {
                let mut s = "Insufficient goods at source: ".to_owned();
                append_str(&mut s, good_name.as_str());
                append_str(&mut s, " (need ");
                append_u64(&mut s, *requested);
                append_str(&mut s, ", have ");
                append_u64(&mut s, *available);
                append_str(&mut s, ")");
                s
            },
            ConstructionError::NoMassDriver => "Station has no mass driver".to_owned(),
            ConstructionError::ProjectNotFound(x) => {
                let mut s = "Construction project not found: ".to_owned();
                append_str(&mut s, x.as_str());
                s
            },
        }
    }
}

/// The message that answers `e`.
pub open spec fn trade_request_message(e: TradeRequestError) -> Seq<char> {
    match e {
        TradeRequestError::ZeroRate => "Rate per tick must be positive"@,
        TradeRequestError::TotalQuantityRequired => "Total quantity is required for fixed-rate requests"@,
        TradeRequestError::TargetLevelRequired => "Target level is required for threshold requests"@,
        TradeRequestError::NotStationOwner(x) => "Not the owner of the station at planet: "@ + x@,
        TradeRequestError::PlanetNotConnected(x) => "Planet is not connected: "@ + x@,
        TradeRequestError::RequestNotFound(x) => "Trade request not found: "@ + x@,
        TradeRequestError::RequestNotActive(x) => "Trade request is not active: "@ + x@,
    }
}

impl TradeRequestError {
    /// The message that answers this error.
    pub fn message(&self) -> (r: String)
        ensures
            r@ == trade_request_message(*self),
    {
        match self {
            TradeRequestError::ZeroRate => "Rate per tick must be positive".to_owned(),
            TradeRequestError::TotalQuantityRequired => "Total quantity is required for fixed-rate requests".to_owned(),
            TradeRequestError::TargetLevelRequired => "Target level is required for threshold requests".to_owned(),
            TradeRequestError::NotStationOwner(x) => {
                let mut s = "Not the owner of the station at planet: ".to_owned();
                append_str(&mut s, x.as_str());
                s
            },
            TradeRequestError::PlanetNotConnected(x) => {
                let mut s = "Planet is not connected: ".to_owned();
                append_str(&mut s, x.as_str());
                s
            },
            TradeRequestError::RequestNotFound(x) => {
                let mut s = "Trade request not found: ".to_owned();
                append_str(&mut s, x.as_str());
                s
            },
            TradeRequestError::RequestNotActive(x) => {
                let mut s = "Trade request is not active: ".to_owned();
                append_str(&mut s, x.as_str());
                s
            },
        }
    }
}

/// The message that answers `e`.
pub open spec fn app_error_message(e: AppError) -> Seq<char> {
    match e {
        AppError::SystemNotFound(x) => "System not found: "@ + x@,
        AppError::PlanetNotFound(x) => "Planet not found: "@ + x@,
        AppError::SettlementNotFound(x) => "Settlement not found on planet: "@ + x@,
        AppError::StationNotFound(x) => "Station not found on planet: "@ + x@,
        AppError::PlanetAlreadyExists(x) => "Planet already exists: "@ + x@,
        AppError::SettlementRequired(x) => "Planet is uninhabited, settlement required: "@ + x@,
        AppError::NotConnected(x) => "Planet is not connected (no station/space elevator): "@ + x@,
        AppError::SpaceElevator(x) => space_elevator_message(x),
        AppError::MassDriver(x) => mass_driver_message(x),
        AppError::PlayerNotFound(x) => "Player not found: "@ + x@,
        AppError::Unauthorized => "Unauthorized: missing or invalid Bearer token"@,
        AppError::Forbidden => "Forbidden: you do not have permission"@,
        AppError::Ship(x) => ship_message(x),
        AppError::Market(x) => market_message(x),
        AppError::StationHasActiveShips(x) => "Station has active ships and cannot be deleted: "@ + x@,
        AppError::Construction(x) => construction_message(x),
        AppError::TradeRequest(x) => trade_request_message(x),
        AppError::Internal(x) => "Internal error: "@ + x@,
    }
}

impl AppError {
    /// The message that answers this error.
    pub fn message(&self) -> (r: String)
        ensures
            r@ == app_error_message(*self),
    {
        match self {
            AppError::SystemNotFound(x) => {
                let mut s = "System not found: ".to_owned();
                append_str(&mut s, x.as_str());
                s
            },
            AppError::PlanetNotFound(x) => {
                let mut s = "Planet not found: ".to_owned();
                append_str(&mut s, x.as_str());
                s
            },
            AppError::SettlementNotFound(x) => {
                let mut s = "Settlement not found on planet: ".to_owned();
                append_str(&mut s, x.as_str());
                s
            },
            AppError::StationNotFound(x) => {
                let mut s = "Station not found on planet: ".to_owned();
                append_str(&mut s, x.as_str());
                s
            },
            AppError::PlanetAlreadyExists(x) => {
                let mut s = "Planet already exists: ".to_owned();
                append_str(&mut s, x.as_str());
                s
            },
            AppError::SettlementRequired(x) => {
                let mut s = "Planet is uninhabited, settlement required: ".to_owned();
                append_str(&mut s, x.as_str());
                s
            },
            AppError::NotConnected(x) => {
                let mut s = "Planet is not connected (no station/space elevator): ".to_owned();
                append_str(&mut s, x.as_str());
                s
            },
            AppError::SpaceElevator(x) => x.message(),
            AppError::MassDriver(x) => x.message(),
            AppError::PlayerNotFound(x) => {
                let mut s = "Player not found: ".to_owned();
                append_str(&mut s, x.as_str());
                s
            },
            AppError::Unauthorized => "Unauthorized: missing or invalid Bearer token".to_owned(),
            AppError::Forbidden => "Forbidden: you do not have permission".to_owned(),
            AppError::Ship(x) => x.message(),
            AppError::Market(x) => x.message(),
            AppError::StationHasActiveShips(x) => {
                let mut s = "Station has active ships and cannot be deleted: ".to_owned();
                append_str(&mut s, x.as_str());
                s
            },
            AppError::Construction(x) => x.message(),
            AppError::TradeRequest(x) => x.message(),
            AppError::Internal(x) => {
                let mut s = "Internal error: ".to_owned();
                append_str(&mut s, x.as_str());
                s
            },
        }
    }
}

} // verus!
