use offworld_trading_manager::error::{
    AppError, ConstructionError, MarketError, MassDriverError, ShipError, SpaceElevatorError,
    SystemsError, TradeRequestError,
};
use offworld_trading_manager::inventory::Inventory;
use offworld_trading_manager::models::{Economy, ProjectStatus, ProjectType, MassDriver, Order, OrderSide, OrderStatus, OrderType, Player, PlayerPublic, Warehouse};
use offworld_trading_manager::routes::persistence::{book_entries, SnapshotResponse};
use offworld_trading_manager::routes::construction::open_project;
use offworld_trading_manager::routes::players::parse_bearer;
use offworld_trading_manager::routes::ships::ship_position;
use offworld_trading_manager::text::{decimal_digits, generate_planet_id, push_chars};
use offworld_trading_manager::time::now_ms;

#[test]
fn status_of_each_error() {
    let s = || "x".to_string();
    assert_eq!(AppError::SystemNotFound(s()).status_code(), 404);
    assert_eq!(AppError::PlanetAlreadyExists(s()).status_code(), 409);
    assert_eq!(AppError::SettlementRequired(s()).status_code(), 400);
    assert_eq!(AppError::NotConnected(s()).status_code(), 400);
    assert_eq!(AppError::PlayerNotFound(s()).status_code(), 404);
    assert_eq!(AppError::Unauthorized.status_code(), 401);
    assert_eq!(AppError::Forbidden.status_code(), 403);
    assert_eq!(AppError::StationHasActiveShips(s()).status_code(), 409);
    assert_eq!(AppError::Internal(s()).status_code(), 500);
    assert_eq!(AppError::from(SpaceElevatorError::NoCabinAvailable).status_code(), 503);
    assert_eq!(AppError::from(SpaceElevatorError::EmptyTransfer).status_code(), 400);
    assert_eq!(AppError::from(MassDriverError::ConnectionNotFound(s())).status_code(), 404);
    assert_eq!(AppError::from(MassDriverError::NoChannelAvailable(s())).status_code(), 503);
    assert_eq!(AppError::from(MassDriverError::ConnectionNotActive).status_code(), 409);
    assert_eq!(AppError::from(MassDriverError::PacketTooLarge { size: 30, max: 20 }).status_code(), 400);
    assert_eq!(AppError::from(ShipError::ShipNotFound(s())).status_code(), 404);
    assert_eq!(AppError::from(ShipError::InvalidShipState).status_code(), 409);
    assert_eq!(AppError::from(ShipError::NotStationOwner).status_code(), 403);
    assert_eq!(AppError::from(ShipError::SameStation).status_code(), 400);
    assert_eq!(AppError::from(MarketError::OrderNotFound(s())).status_code(), 404);
    assert_eq!(AppError::from(MarketError::OrderNotCancellable).status_code(), 409);
    assert_eq!(AppError::from(MarketError::PriceRequired).status_code(), 400);
    assert_eq!(AppError::from(ConstructionError::ProjectNotFound(s())).status_code(), 404);
    assert_eq!(AppError::from(ConstructionError::NotSourceStationOwner).status_code(), 403);
    assert_eq!(AppError::from(ConstructionError::TargetAlreadyConnected(s())).status_code(), 409);
    assert_eq!(AppError::from(ConstructionError::SamePlanet).status_code(), 400);
    assert_eq!(AppError::from(TradeRequestError::NotStationOwner(s())).status_code(), 403);
    assert_eq!(AppError::from(TradeRequestError::RequestNotFound(s())).status_code(), 404);
    assert_eq!(AppError::from(TradeRequestError::RequestNotActive(s())).status_code(), 409);
    assert_eq!(AppError::from(TradeRequestError::ZeroRate).status_code(), 400);
    assert_eq!(SystemsError::Conflict.status_code(), 409);
    assert_eq!(SystemsError::NotFound.status_code(), 404);
}

/// The text under which an unknown ship id is reported.
fn unknown_ship_text(id: u128) -> String {
    match ship_position(&Vec::new(), id) {
        Err(AppError::Ship(ShipError::ShipNotFound(text))) => text,
        _ => panic!("no ship is known in an empty list"),
    }
}

#[test]
fn uuid_text_is_hyphenated_lower_hex() {
    assert_eq!(unknown_ship_text(0), "00000000-0000-0000-0000-000000000000");
    assert_eq!(unknown_ship_text(0x0123456789abcdef0123456789ABCDEF), "01234567-89ab-cdef-0123-456789abcdef");
    assert_eq!(unknown_ship_text(u128::MAX), "ffffffff-ffff-ffff-ffff-ffffffffffff");
}

#[test]
fn fresh_uuids_are_version_four() {
    let fresh = || {
        let owner = "alpha".to_string();
        let planet = "Sol-3".to_string();
        open_project(ProjectType::UpgradeStorage, &owner, &planet, &planet, 0, Inventory::new(), Inventory::new(), ProjectStatus::Building, 0, 0, None, None).id
    };
    let a = fresh();
    let b = fresh();
    assert_ne!(a, b);
    for v in [a, b] {
        assert_eq!((v >> 76) & 0xF, 4);
        assert_eq!((v >> 62) & 0x3, 2);
        assert_eq!(unknown_ship_text(v).chars().nth(14), Some('4'));
    }
}

#[test]
fn decimal_text_of_numbers() {
    let text = |n: u64| decimal_digits(n).into_iter().collect::<String>();
    assert_eq!(text(0), "0");
    assert_eq!(text(9), "9");
    assert_eq!(text(10), "10");
    assert_eq!(text(1234567890), "1234567890");
    assert_eq!(text(u64::MAX), "18446744073709551615");
    assert_eq!(generate_planet_id(&"Alpha Centauri".to_string(), 12), "Alpha Centauri-12");
    assert_ne!(generate_planet_id(&"Sol".to_string(), 1), generate_planet_id(&"Sol".to_string(), 11));
    let mut s = "ab".to_string();
    push_chars(&mut s, &vec!['c', 'd']);
    assert_eq!(s, "abcd");
}

#[test]
fn bearer_header_reads_back_the_key() {
    for key in ["alpha-key", "", "with space"] {
        assert_eq!(parse_bearer(&format!("Bearer {}", key)), Some(key.to_string()));
    }
    assert_eq!(parse_bearer("bearer alpha-key"), None);
    assert_eq!(parse_bearer("Basic xyz"), None);
}

fn order(id: u128, status: OrderStatus, price: Option<u64>) -> Order {
    Order {
        id,
        player_id: "alpha".to_string(),
        good_name: format!("good{}", id),
        side: if id % 2 == 0 { OrderSide::Buy } else { OrderSide::Sell },
        order_type: if price.is_some() { OrderType::Limit } else { OrderType::Market },
        price,
        quantity: 10,
        filled_quantity: 4,
        status,
        station_planet_id: "Sol-3".to_string(),
        created_at: 0,
    }
}

#[test]
fn resting_orders_go_back_in_the_books() {
    let orders = vec![
        order(1, OrderStatus::Open, Some(5)),
        order(2, OrderStatus::Filled, Some(6)),
        order(3, OrderStatus::PartiallyFilled, Some(7)),
        order(4, OrderStatus::Open, None),
        order(6, OrderStatus::Cancelled, Some(8)),
        order(8, OrderStatus::Open, Some(9)),
    ];
    let entries = book_entries(&orders);
    let ids: Vec<u128> = entries.iter().map(|e| e.order_id).collect();
    assert_eq!(ids, vec![1, 3, 8]);
    assert_eq!(entries[1].price, 7);
    assert_eq!(entries[1].side, OrderSide::Sell);
    assert_eq!(entries[2].side, OrderSide::Buy);
    assert_eq!(entries[0].good_name, "good1");
    assert_eq!(orders[0].remaining(), 6);
}

#[test]
fn snapshot_answers() {
    let saved = SnapshotResponse::saved(7);
    assert_eq!((saved.snapshot_id, saved.message.as_str()), (7, "snapshot saved successfully"));
    let loaded = SnapshotResponse::loaded(-1);
    assert_eq!((loaded.snapshot_id, loaded.message.as_str()), (-1, "snapshot loaded successfully"));
}

#[test]
fn empty_models() {
    let e = Economy::empty();
    assert_eq!(e.supply.len() + e.demand.len(), 0);
    let w = Warehouse::empty("alpha".to_string());
    assert_eq!((w.owner_id.as_str(), w.inventory.len()), ("alpha", 0));
    assert_eq!(MassDriver::new(6).channels, 6);
    let p = Player { id: "a".to_string(), name: "A".to_string(), credits: -5, initial_credits: 0, api_key: "k".to_string(), callback_url: "u".to_string() };
    let public = PlayerPublic::from(&p);
    assert_eq!((public.id.as_str(), public.name.as_str(), public.credits), ("a", "A", -5));
}

#[test]
fn clock_reads_after_the_epoch() {
    let a = now_ms();
    let b = now_ms();
    assert!(a > 1_600_000_000_000);
    assert!(b >= a);
}

#[test]
fn messages_of_errors() {
    assert_eq!(AppError::Ship(ShipError::NotStationOwner).message(), "Not the owner of the destination station");
    assert_eq!(AppError::SystemNotFound("Vega".to_string()).message(), "System not found: Vega");
    assert_eq!(AppError::Unauthorized.message(), "Unauthorized: missing or invalid Bearer token");
    let e = MarketError::InsufficientCredits { needed: 120, available: -7 };
    assert_eq!(AppError::Market(e).message(), "Insufficient credits: need 120, have -7");
    let e = MassDriverError::PacketTooLarge { size: 30, max: 20 };
    assert_eq!(e.message(), "Packet too large: 30 > 20 max");
    let e = ShipError::InsufficientCargo { good_name: "ore".to_string(), requested: 5, available: 0 };
    assert_eq!(AppError::Ship(e).message(), "Insufficient cargo at origin station: ore (need 5, have 0)");
    let e = ConstructionError::InsufficientCredits { needed: 10, available: i64::MIN };
    assert_eq!(e.message(), "Insufficient credits: need 10, have -9223372036854775808");
    assert_eq!(TradeRequestError::ZeroRate.message(), "Rate per tick must be positive");
    assert_eq!(SpaceElevatorError::NoCabinAvailable.message(), "No cabin available");
}
