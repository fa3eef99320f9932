use offworld_trading_manager::error::{AppError, ShipError, TradeRequestError};
use offworld_trading_manager::galaxy::GalaxyState;
use offworld_trading_manager::inventory::Inventory;
use offworld_trading_manager::models::{
    ClimateType, Coordinates, CreatePlanetRequest, CreateSettlementRequest, CreateShipRequest,
    CreateStationRequest, CreateSystemRequest, CreateTradeRequestBody, PlanetStatus, PlanetType,
    Ship, ShipStatus, StarType, TradeDirection, TradeRequest, TradeRequestMode,
    TradeRequestStatus,
};
use offworld_trading_manager::routes::ships::{
    create_ship, dock_ship_by_id, get_ship, insert_ship, list_ships, status_name, undock_overflows, undock_ship_by_id,
};
use offworld_trading_manager::routes::trade::insert_request;
use offworld_trading_manager::time::ms_or_zero;
use offworld_trading_manager::trade_lifecycle::tick_request;
use offworld_trading_manager::routes::trade::{cancel_trade_request, create_trade_request, get_trade_request, validate_trade_request};
use offworld_trading_manager::ship_lifecycle::{docking_request_for, ship_arrives, webhook_wanted};
use offworld_trading_manager::trade_lifecycle::{run_trade_tick, tick_fits, tick_units};
use offworld_trading_manager::models::ShipWebhookPayload;

fn s(x: &str) -> String {
    x.to_string()
}

fn inv(pairs: &[(&str, u64)]) -> Inventory {
    let mut i = Inventory::new();
    for (g, q) in pairs {
        i.set(g.to_string(), *q);
    }
    i
}

/// Sol with two connected planets: Sol-3 (alpha) holding ore and Sol-4 (beta).
fn galaxy() -> GalaxyState {
    let mut g = GalaxyState::new();
    let coordinates = Coordinates { x_bits: 0, y_bits: 0, z_bits: 0 };
    assert!(g.create_system(CreateSystemRequest { name: s("Sol"), coordinates, star_type: StarType::YellowDwarf }).is_ok());
    for (pos, owner) in [(3u32, "alpha"), (4u32, "beta")] {
        let req = CreatePlanetRequest {
            name: format!("P{}", pos),
            position: pos,
            distance_ua_bits: (pos as f64).to_bits(),
            planet_type: PlanetType::Telluric { climate: ClimateType::Arid },
        };
        assert!(g.create_planet(&s("Sol"), req).is_ok());
        let id = format!("Sol-{}", pos);
        assert!(g.create_or_update_settlement(&s("Sol"), &id, CreateSettlementRequest { name: format!("Town{}", pos), population: Some(10) }).is_ok());
        assert!(g.create_or_update_station(&s("Sol"), &id, CreateStationRequest { name: format!("St{}", pos), owner_id: s(owner) }, 4).is_ok());
    }
    set_station_stock(&mut g, 0, inv(&[("ore", 100), ("water", 5)]));
    g
}

fn set_station_stock(g: &mut GalaxyState, j: usize, stock: Inventory) {
    if let PlanetStatus::Connected { station, .. } = &mut g.systems[0].planets[j].status {
        station.inventory = stock;
    }
}

fn station_qty(g: &GalaxyState, j: usize, good: &str) -> u64 {
    match &g.systems[0].planets[j].status {
        PlanetStatus::Connected { station, .. } => station.inventory.get(&s(good)),
        _ => panic!("not connected"),
    }
}

fn ship_req(cargo: Inventory) -> CreateShipRequest {
    CreateShipRequest { origin_planet_id: s("Sol-3"), destination_planet_id: s("Sol-4"), cargo }
}

#[test]
fn inventory_add_deduct_and_total() {
    let mut i = Inventory::new();
    i.add(&s("ore"), 10);
    i.add(&s("ore"), 5);
    assert_eq!(i.get(&s("ore")), 15);
    i.deduct(&s("ore"), 15);
    assert!(!i.contains(&s("ore")));
    assert_eq!(i.get(&s("ore")), 0);
    i.add(&s("gas"), 0);
    assert!(i.contains(&s("gas")));
    let j = inv(&[("a", u64::MAX), ("b", u64::MAX), ("c", 2)]);
    assert_eq!(j.total(), 2 * (u64::MAX as u128) + 2);
    assert_eq!(j.len(), 3);
    let k = Inventory::from_pairs(&vec![(s("a"), 1), (s("a"), 4)]);
    assert_eq!(k.get(&s("a")), 4);
    assert_eq!(k.len(), 1);
}

#[test]
fn inventory_shortfall_and_bulk() {
    let mut stock = inv(&[("ore", 10), ("water", 3)]);
    assert!(stock.first_shortfall(&inv(&[("ore", 10)])).is_none());
    let (g, need, have) = stock.first_shortfall(&inv(&[("ore", 1), ("water", 4)])).unwrap();
    assert_eq!((g.as_str(), need, have), ("water", 4, 3));
    assert_eq!(stock.first_shortfall(&inv(&[("gold", 1)])).unwrap().2, 0);
    stock.deduct_all(&inv(&[("ore", 4), ("water", 3)]));
    assert_eq!(stock.get(&s("ore")), 6);
    assert!(!stock.contains(&s("water")));
    stock.add_all(&inv(&[("ore", 4), ("water", 3)]));
    assert_eq!(stock.get(&s("ore")), 10);
    assert_eq!(stock.get(&s("water")), 3);
    assert!(!stock.addition_fits(&inv(&[("ore", u64::MAX)])));
    let copy = stock.duplicate();
    assert_eq!(copy.to_vec().len(), 2);
}

#[test]
fn ship_full_journey_moves_cargo() {
    let mut g = galaxy();
    let (ship, dep) = create_ship(&mut g, &s("alpha"), ship_req(inv(&[("ore", 40)]))).ok().unwrap();
    assert_eq!(ship.status, ShipStatus::InTransit);
    assert_eq!(ship.owner_id, "alpha");
    assert_eq!(ship.id >> 76 & 0xF, 4);
    assert_eq!(f64::from_bits(dep.origin_distance_ua_bits), 3.0);
    assert_eq!(f64::from_bits(dep.destination_distance_ua_bits), 4.0);
    assert_eq!(dep.destination_owner_id, "beta");
    assert_eq!(station_qty(&g, 0, "ore"), 60);
    let id = ship.id;
    let mut ships = vec![ship];
    assert!(ship_arrives(&mut ships[0], 1000));
    assert_eq!(ships[0].arrival_at, Some(1000));
    assert!(!ship_arrives(&mut ships[0], 2000));
    match docking_request_for(&ships[0]) {
        ShipWebhookPayload::DockingRequest { ship_id, origin_planet_id, cargo } => {
            assert_eq!(ship_id, id);
            assert_eq!(origin_planet_id, "Sol-3");
            assert_eq!(cargo.get(&s("ore")), 40);
        }
        _ => panic!("wrong payload"),
    }
    let e = dock_ship_by_id(&mut ships, &g, id, &s("alpha"), true, 5000).err().unwrap();
    assert!(matches!(e, AppError::Ship(ShipError::NotStationOwner)));
    assert_eq!(e.status_code(), 403);
    assert!(dock_ship_by_id(&mut ships, &g, id, &s("beta"), true, 5000).is_ok());
    assert_eq!(ships[0].status, ShipStatus::Unloading);
    assert_eq!(get_ship(&mut ships, id, 4999).ok().unwrap(), 0);
    assert_eq!(ships[0].status, ShipStatus::Unloading);
    let e = undock_ship_by_id(&mut ships, &mut g, id, &s("beta"), true, 4999).err().unwrap();
    assert!(matches!(e, AppError::Ship(ShipError::InvalidShipState)));
    assert_eq!(station_qty(&g, 1, "ore"), 0);
    assert!(undock_ship_by_id(&mut ships, &mut g, id, &s("beta"), true, 5000).is_ok());
    assert_eq!(ships[0].status, ShipStatus::Complete);
    assert_eq!(station_qty(&g, 1, "ore"), 40);
    assert_eq!(station_qty(&g, 0, "ore") + station_qty(&g, 1, "ore"), 100);
}

#[test]
fn ship_refusals() {
    let mut g = galaxy();
    let same = CreateShipRequest { origin_planet_id: s("Sol-3"), destination_planet_id: s("Sol-3"), cargo: Inventory::new() };
    assert!(matches!(create_ship(&mut g, &s("alpha"), same).err().unwrap(), AppError::Ship(ShipError::SameStation)));
    let e = create_ship(&mut g, &s("beta"), ship_req(inv(&[("ore", 1)]))).err().unwrap();
    assert!(matches!(e, AppError::Ship(ShipError::NotStationOwner)));
    let e = create_ship(&mut g, &s("alpha"), ship_req(inv(&[("ore", 101)]))).err().unwrap();
    match e {
        AppError::Ship(ShipError::InsufficientCargo { good_name, requested, available }) => {
            assert_eq!((good_name.as_str(), requested, available), ("ore", 101, 100));
        }
        _ => panic!("wrong error"),
    }
    let lost = CreateShipRequest { origin_planet_id: s("Sol-3"), destination_planet_id: s("Sol-9"), cargo: Inventory::new() };
    assert!(matches!(create_ship(&mut g, &s("alpha"), lost).err().unwrap(), AppError::PlanetNotFound(ref n) if n == "Sol-9"));
    assert_eq!(station_qty(&g, 0, "ore"), 100);
    let mut ships: Vec<Ship> = Vec::new();
    let e = dock_ship_by_id(&mut ships, &g, 7, &s("beta"), false, 0).err().unwrap();
    assert!(matches!(e, AppError::Ship(ShipError::InvalidShipState)));
    let e = dock_ship_by_id(&mut ships, &g, 7, &s("beta"), true, 0).err().unwrap();
    assert!(matches!(e, AppError::Ship(ShipError::ShipNotFound(ref n)) if n == "00000000-0000-0000-0000-000000000007"));
}

#[test]
fn ship_listing_filters() {
    let mut g = galaxy();
    let (a, _) = create_ship(&mut g, &s("alpha"), ship_req(inv(&[("ore", 1)]))).ok().unwrap();
    let (mut b, _) = create_ship(&mut g, &s("alpha"), ship_req(inv(&[("ore", 1)]))).ok().unwrap();
    assert!(ship_arrives(&mut b, 10));
    let ships = vec![a, b];
    assert_eq!(list_ships(&ships, None, None), vec![0, 1]);
    assert_eq!(list_ships(&ships, Some(s("alpha")), Some(s("in_transit"))), vec![0]);
    assert_eq!(list_ships(&ships, None, Some(s("awaiting_docking_auth"))), vec![1]);
    assert_eq!(list_ships(&ships, Some(s("beta")), None), Vec::<usize>::new());
    assert_eq!(status_name(ShipStatus::AwaitingUndockingAuth), "awaiting_undocking_auth");
    assert!(webhook_wanted(&s("http://x")));
    assert!(!webhook_wanted(&s("")));
}

fn trade_body(mode: TradeRequestMode, direction: TradeDirection) -> CreateTradeRequestBody {
    CreateTradeRequestBody {
        planet_id: s("Sol-3"),
        good_name: s("grain"),
        direction,
        mode,
        rate_per_tick: 10,
        total_quantity: Some(25),
        target_level: Some(15),
    }
}

fn supply_of(g: &GalaxyState, good: &str) -> u64 {
    match &g.systems[0].planets[0].status {
        PlanetStatus::Connected { settlement, .. } => settlement.economy.supply.get(&s(good)),
        _ => panic!("not connected"),
    }
}

fn demand_of(g: &GalaxyState, good: &str) -> u64 {
    match &g.systems[0].planets[0].status {
        PlanetStatus::Connected { settlement, .. } => settlement.economy.demand.get(&s(good)),
        _ => panic!("not connected"),
    }
}

#[test]
fn fixed_rate_request_runs_to_total() {
    let mut g = galaxy();
    let mut r: TradeRequest = create_trade_request(&g, &s("alpha"), trade_body(TradeRequestMode::FixedRate, TradeDirection::Export)).ok().unwrap();
    assert_eq!(r.status, TradeRequestStatus::Active);
    assert_eq!(tick_units(&r), 10);
    assert!(tick_fits(&g, &r));
    assert!(run_trade_tick(&mut g, &mut r, 1));
    assert!(run_trade_tick(&mut g, &mut r, 2));
    assert_eq!(tick_units(&r), 5);
    assert!(!run_trade_tick(&mut g, &mut r, 3));
    assert_eq!(r.cumulative_generated, 25);
    assert_eq!(r.status, TradeRequestStatus::Completed);
    assert_eq!(r.completed_at, Some(3));
    assert_eq!(supply_of(&g, "grain"), 25);
    assert!(!run_trade_tick(&mut g, &mut r, 4));
    assert_eq!(supply_of(&g, "grain"), 25);
}

#[test]
fn threshold_import_completes_at_target() {
    let mut g = galaxy();
    let mut r = create_trade_request(&g, &s("alpha"), trade_body(TradeRequestMode::Threshold, TradeDirection::Import)).ok().unwrap();
    assert!(run_trade_tick(&mut g, &mut r, 1));
    assert_eq!(demand_of(&g, "grain"), 10);
    assert!(!run_trade_tick(&mut g, &mut r, 2));
    assert_eq!(demand_of(&g, "grain"), 20);
    assert_eq!(r.status, TradeRequestStatus::Completed);
}

#[test]
fn standing_export_auto_cancels_without_stock() {
    let mut g = galaxy();
    let mut r = create_trade_request(&g, &s("alpha"), trade_body(TradeRequestMode::Standing, TradeDirection::Export)).ok().unwrap();
    assert!(!run_trade_tick(&mut g, &mut r, 9));
    assert_eq!(r.status, TradeRequestStatus::AutoCancelled);
    assert_eq!(r.completed_at, Some(9));
    assert_eq!(supply_of(&g, "grain"), 0);
}

#[test]
fn trade_request_validation() {
    let g = galaxy();
    let mut body = trade_body(TradeRequestMode::FixedRate, TradeDirection::Export);
    body.rate_per_tick = 0;
    assert!(matches!(validate_trade_request(&g, &s("alpha"), &body).err().unwrap(), AppError::TradeRequest(_)));
    let mut body = trade_body(TradeRequestMode::FixedRate, TradeDirection::Export);
    body.total_quantity = None;
    assert_eq!(validate_trade_request(&g, &s("alpha"), &body).err().unwrap().status_code(), 400);
    let body = trade_body(TradeRequestMode::Standing, TradeDirection::Export);
    assert_eq!(validate_trade_request(&g, &s("beta"), &body).err().unwrap().status_code(), 403);
    let mut body = trade_body(TradeRequestMode::Standing, TradeDirection::Export);
    body.planet_id = s("Sol-77");
    assert!(matches!(validate_trade_request(&g, &s("alpha"), &body).err().unwrap(), AppError::PlanetNotFound(_)));
}

#[test]
fn cancel_trade_request_once() {
    let g = galaxy();
    let r = create_trade_request(&g, &s("alpha"), trade_body(TradeRequestMode::Standing, TradeDirection::Import)).ok().unwrap();
    let id = r.id;
    let mut list = vec![r];
    assert!(get_trade_request(&list, id, &s("beta")).is_err());
    assert!(get_trade_request(&list, id, &s("alpha")).is_ok());
    let e = cancel_trade_request(&mut list, id, &s("beta"), 5).err().unwrap();
    assert_eq!(e.status_code(), 404);
    assert_eq!(cancel_trade_request(&mut list, id, &s("alpha"), 5).ok().unwrap(), 0);
    assert_eq!(list[0].status, TradeRequestStatus::Cancelled);
    assert_eq!(list[0].completed_at, Some(5));
    let e = cancel_trade_request(&mut list, id, &s("alpha"), 6).err().unwrap();
    assert_eq!(e.status_code(), 409);
    match e {
        AppError::TradeRequest(TradeRequestError::RequestNotActive(text)) => {
            assert_eq!(text.len(), 36);
            assert_eq!(&text[14..15], "4");
        },
        _ => panic!("a cancelled request is no longer active"),
    }
}

#[test]
fn clock_readings_become_timestamps() {
    assert_eq!(ms_or_zero(Ok(1_700_000_000_123)), 1_700_000_000_123);
    assert_eq!(ms_or_zero(Ok((1u128 << 64) + 5)), 5);
    assert_eq!(ms_or_zero(Err(())), 0);
}

#[test]
fn launch_refusals_leave_the_galaxy_alone() {
    let mut g = galaxy();
    let unsettled = CreateShipRequest { origin_planet_id: s("Sol-9"), destination_planet_id: s("Sol-4"), cargo: Inventory::new() };
    assert!(matches!(create_ship(&mut g, &s("alpha"), unsettled).err().unwrap(), AppError::PlanetNotFound(ref n) if n == "Sol-9"));
    let e = create_ship(&mut g, &s("alpha"), ship_req(inv(&[("ore", 50), ("gold", 1)]))).err().unwrap();
    assert!(matches!(e, AppError::Ship(ShipError::InsufficientCargo { ref good_name, requested: 1, available: 0 }) if good_name == "gold"));
    assert_eq!(station_qty(&g, 0, "ore"), 100);
}

#[test]
fn refused_undock_keeps_the_ship() {
    let mut g = galaxy();
    let (ship, _) = create_ship(&mut g, &s("alpha"), ship_req(inv(&[("ore", 40)]))).ok().unwrap();
    let id = ship.id;
    let mut ships = Vec::new();
    insert_ship(&mut ships, ship);
    assert!(ship_arrives(&mut ships[0], 1));
    assert!(dock_ship_by_id(&mut ships, &g, id, &s("beta"), true, 100).is_ok());
    let before = ships[0].status;
    let e = undock_ship_by_id(&mut ships, &mut g, id, &s("alpha"), true, 200).err().unwrap();
    assert!(matches!(e, AppError::Ship(ShipError::NotStationOwner)));
    assert_eq!(ships[0].status, before);
    let e = undock_ship_by_id(&mut ships, &mut g, id, &s("beta"), true, 50).err().unwrap();
    assert!(matches!(e, AppError::Ship(ShipError::InvalidShipState)));
    assert_eq!(ships[0].status, ShipStatus::Unloading);
    assert!(!undock_overflows(&ships, &g, id, &s("beta"), true, 200));
    set_station_stock(&mut g, 1, inv(&[("ore", u64::MAX)]));
    assert!(undock_overflows(&ships, &g, id, &s("beta"), true, 200));
    assert!(!undock_overflows(&ships, &g, id, &s("beta"), true, 50));
    assert!(!undock_overflows(&ships, &g, id, &s("alpha"), true, 200));
}

#[test]
fn inserting_by_id_replaces() {
    let mut g = galaxy();
    let (a, _) = create_ship(&mut g, &s("alpha"), ship_req(inv(&[("ore", 1)]))).ok().unwrap();
    let (b, _) = create_ship(&mut g, &s("alpha"), ship_req(inv(&[("ore", 2)]))).ok().unwrap();
    let (mut a2, _) = create_ship(&mut g, &s("alpha"), ship_req(inv(&[("ore", 3)]))).ok().unwrap();
    a2.id = a.id;
    let mut ships = Vec::new();
    insert_ship(&mut ships, a);
    insert_ship(&mut ships, b);
    insert_ship(&mut ships, a2);
    assert_eq!(ships.len(), 2);
    assert_eq!(ships[0].cargo.get(&s("ore")), 3);
    assert_eq!(ships[1].cargo.get(&s("ore")), 2);
}

#[test]
fn ticking_by_id_touches_only_that_request() {
    let mut g = galaxy();
    let a = create_trade_request(&g, &s("alpha"), trade_body(TradeRequestMode::FixedRate, TradeDirection::Export)).ok().unwrap();
    let b = create_trade_request(&g, &s("alpha"), trade_body(TradeRequestMode::Standing, TradeDirection::Import)).ok().unwrap();
    let (ida, idb) = (a.id, b.id);
    let mut list = Vec::new();
    insert_request(&mut list, a);
    insert_request(&mut list, b);
    assert!(tick_request(&mut list, &mut g, ida, 1));
    assert!(tick_request(&mut list, &mut g, ida, 2));
    assert!(!tick_request(&mut list, &mut g, ida, 3));
    assert_eq!(list[0].cumulative_generated, 25);
    assert_eq!(list[0].status, TradeRequestStatus::Completed);
    assert_eq!(list[1].cumulative_generated, 0);
    assert_eq!(list[1].status, TradeRequestStatus::Active);
    assert!(!tick_request(&mut list, &mut g, 12345, 4));
    assert!(tick_request(&mut list, &mut g, idb, 5));
    assert_eq!(list[1].status, TradeRequestStatus::Active);
    assert_eq!(demand_of(&g, "grain"), 10);
}
