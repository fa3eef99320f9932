use offworld_trading_manager::error::{AppError, ConstructionError};
use offworld_trading_manager::galaxy::GalaxyState;
use offworld_trading_manager::inventory::Inventory;
use offworld_trading_manager::models::{
    ConstructionWebhookPayload,
    ClimateType, Coordinates, CreatePlanetRequest, CreateSettlementRequest, CreateStationRequest,
    CreateSystemRequest, FoundSettlementRequest, InstallStationRequest, PlanetStatus, PlanetType,
    Player, ProjectStatus, ProjectType, StarType, StationUpgradeType, UpgradeElevatorRequest,
    UpgradeStationRequest,
};
use offworld_trading_manager::routes::construction::{
    check_credits, complete_project, elevator_project, found_project, found_settlement_overflows, get_project,
    insert_project, install_project, list_projects, upgrade_project, open_project, plan_found_settlement,
    plan_install_station, plan_upgrade_elevator, plan_upgrade_station, ConstructionConfig,
};

fn s(x: &str) -> String {
    x.to_string()
}

fn inv(pairs: &[(&str, u64)]) -> Inventory {
    let mut i = Inventory::new();
    for (g, q) in pairs {
        i.set(g.to_string(), *q);
    }
    i
}

fn config() -> ConstructionConfig {
    ConstructionConfig {
        station_install_fee: 500,
        station_install_goods: inv(&[("steel", 20)]),
        settlement_found_fee: 300,
        settlement_found_goods: inv(&[("food", 10)]),
        upgrade_docking_bay_fee: 100,
        upgrade_docking_bay_goods: inv(&[("steel", 5)]),
        upgrade_mass_driver_fee: 200,
        upgrade_mass_driver_goods: inv(&[("steel", 8)]),
        upgrade_storage_fee: 50,
        upgrade_storage_goods: inv(&[("steel", 2)]),
        upgrade_cabin_fee: 70,
        upgrade_cabin_goods: inv(&[("steel", 3)]),
    }
}

fn players() -> Vec<Player> {
    vec![
        Player { id: s("alpha"), name: s("Alpha"), credits: 1000, initial_credits: 1000, api_key: s("ka"), callback_url: s("") },
        Player { id: s("beta"), name: s("Beta"), credits: 10, initial_credits: 10, api_key: s("kb"), callback_url: s("") },
    ]
}

/// Sol-3 connected (alpha's station, steel and food), Sol-4 connected
/// (beta), Sol-5 settled, Sol-6 uninhabited.
fn galaxy() -> GalaxyState {
    let mut g = GalaxyState::new();
    let coordinates = Coordinates { x_bits: 7, y_bits: 8, z_bits: 9 };
    assert!(g.create_system(CreateSystemRequest { name: s("Sol"), coordinates, star_type: StarType::YellowDwarf }).is_ok());
    for pos in 3u32..7 {
        let req = CreatePlanetRequest {
            name: format!("P{}", pos),
            position: pos,
            distance_ua_bits: (pos as f64).to_bits(),
            planet_type: PlanetType::Telluric { climate: ClimateType::Temperate },
        };
        assert!(g.create_planet(&s("Sol"), req).is_ok());
        let id = format!("Sol-{}", pos);
        if pos <= 5 {
            assert!(g.create_or_update_settlement(&s("Sol"), &id, CreateSettlementRequest { name: format!("Town{}", pos), population: Some(5) }).is_ok());
        }
        if pos <= 4 {
            let owner = if pos == 3 { "alpha" } else { "beta" };
            assert!(g.create_or_update_station(&s("Sol"), &id, CreateStationRequest { name: format!("St{}", pos), owner_id: s(owner) }, 4).is_ok());
        }
    }
    if let PlanetStatus::Connected { station, space_elevator, .. } = &mut g.systems[0].planets[0].status {
        station.inventory = inv(&[("steel", 30), ("food", 12)]);
        space_elevator.warehouse.inventory = inv(&[("steel", 4)]);
    }
    g
}

fn station_qty(g: &GalaxyState, j: usize, good: &str) -> u64 {
    match &g.systems[0].planets[j].status {
        PlanetStatus::Connected { station, .. } => station.inventory.get(&s(good)),
        _ => panic!("not connected"),
    }
}

fn install(source: &str, target: &str) -> InstallStationRequest {
    InstallStationRequest { source_planet_id: s(source), target_planet_id: s(target), station_name: s("New") }
}

#[test]
fn install_station_pays_fee_and_goods() {
    let mut g = galaxy();
    let mut p = players();
    let route = plan_install_station(&mut g, &mut p, &config(), &s("alpha"), &install("Sol-3", "Sol-5")).ok().unwrap();
    assert_eq!(route.source.system_name, "Sol");
    assert_eq!(route.target.distance_ua_bits, 5f64.to_bits());
    assert_eq!(route.source.coordinates.z_bits, 9);
    assert_eq!(p[0].credits, 500);
    assert_eq!(p[1].credits, 10);
    assert_eq!(station_qty(&g, 0, "steel"), 10);
    assert_eq!(station_qty(&g, 0, "food"), 12);
}

#[test]
fn install_station_refusals() {
    let cfg = config();
    let alpha = s("alpha");
    let mut g = galaxy();
    let mut p = players();
    let same = plan_install_station(&mut g, &mut p, &cfg, &alpha, &install("Sol-3", "Sol-3"));
    assert!(matches!(same, Err(AppError::Construction(ConstructionError::SamePlanet))));
    let missing = plan_install_station(&mut g, &mut p, &cfg, &alpha, &install("Sol-9", "Sol-5"));
    assert!(matches!(missing, Err(AppError::Construction(ConstructionError::SourceStationNotFound(ref id))) if id == "Sol-9"));
    let not_connected = plan_install_station(&mut g, &mut p, &cfg, &alpha, &install("Sol-5", "Sol-6"));
    assert!(matches!(not_connected, Err(AppError::Construction(ConstructionError::SourceStationNotFound(_)))));
    let not_owner = plan_install_station(&mut g, &mut p, &cfg, &alpha, &install("Sol-4", "Sol-5"));
    assert!(matches!(not_owner, Err(AppError::Construction(ConstructionError::NotSourceStationOwner))));
    let no_target = plan_install_station(&mut g, &mut p, &cfg, &alpha, &install("Sol-3", "Sol-8"));
    assert!(matches!(no_target, Err(AppError::Construction(ConstructionError::TargetPlanetNotFound(_)))));
    let connected = plan_install_station(&mut g, &mut p, &cfg, &alpha, &install("Sol-3", "Sol-4"));
    assert!(matches!(connected, Err(AppError::Construction(ConstructionError::TargetAlreadyConnected(_)))));
    let bare = plan_install_station(&mut g, &mut p, &cfg, &alpha, &install("Sol-3", "Sol-6"));
    assert!(matches!(bare, Err(AppError::Construction(ConstructionError::TargetNotSettled(_)))));
    assert_eq!(p[0].credits, 1000);
    assert_eq!(station_qty(&g, 0, "steel"), 30);
}

#[test]
fn install_station_without_credits_or_goods() {
    let mut cfg = config();
    cfg.station_install_fee = 5000;
    let mut g = galaxy();
    let mut p = players();
    let poor = plan_install_station(&mut g, &mut p, &cfg, &s("alpha"), &install("Sol-3", "Sol-5"));
    assert!(matches!(poor, Err(AppError::Construction(ConstructionError::InsufficientCredits { needed: 5000, available: 1000 }))));
    let mut cfg = config();
    cfg.station_install_goods = inv(&[("steel", 31)]);
    let short = plan_install_station(&mut g, &mut p, &cfg, &s("alpha"), &install("Sol-3", "Sol-5"));
    match short {
        Err(AppError::Construction(ConstructionError::InsufficientGoods { good_name, requested, available })) => {
            assert_eq!((good_name.as_str(), requested, available), ("steel", 31, 30));
        },
        _ => panic!("expected a shortfall"),
    }
    assert_eq!(p[0].credits, 1000);
    assert_eq!(station_qty(&g, 0, "steel"), 30);
}

#[test]
fn found_settlement_takes_extra_goods() {
    let mut g = galaxy();
    let mut p = players();
    let body = FoundSettlementRequest {
        source_planet_id: s("Sol-3"),
        target_planet_id: s("Sol-6"),
        settlement_name: s("Colony"),
        station_name: s("Dock"),
        extra_goods: inv(&[("food", 2), ("steel", 1)]),
    };
    assert!(plan_found_settlement(&mut g, &mut p, &config(), &s("alpha"), &body).is_ok());
    assert_eq!(station_qty(&g, 0, "food"), 0);
    assert_eq!(station_qty(&g, 0, "steel"), 29);
    assert_eq!(p[0].credits, 700);
    let settled = FoundSettlementRequest { target_planet_id: s("Sol-5"), ..body };
    let r = plan_found_settlement(&mut g, &mut p, &config(), &s("alpha"), &settled);
    assert!(matches!(r, Err(AppError::Construction(ConstructionError::TargetNotUninhabited(_)))));
}

#[test]
fn upgrades_of_station_and_elevator() {
    let mut g = galaxy();
    let mut p = players();
    let cfg = config();
    let alpha = s("alpha");
    let bays = UpgradeStationRequest { planet_id: s("Sol-3"), upgrade_type: StationUpgradeType::DockingBays };
    assert_eq!(plan_upgrade_station(&mut g, &mut p, &cfg, &alpha, &bays).ok(), Some(ProjectType::UpgradeDockingBays));
    assert_eq!(p[0].credits, 900);
    assert_eq!(station_qty(&g, 0, "steel"), 25);
    let channels = UpgradeStationRequest { planet_id: s("Sol-3"), upgrade_type: StationUpgradeType::MassDriverChannels };
    assert_eq!(plan_upgrade_station(&mut g, &mut p, &cfg, &alpha, &channels).ok(), Some(ProjectType::UpgradeMassDriverChannels));
    let foreign = UpgradeStationRequest { planet_id: s("Sol-4"), upgrade_type: StationUpgradeType::Storage };
    let r = plan_upgrade_station(&mut g, &mut p, &cfg, &alpha, &foreign);
    assert!(matches!(r, Err(AppError::Construction(ConstructionError::NotTargetStationOwner))));
    if let PlanetStatus::Connected { station, .. } = &mut g.systems[0].planets[0].status {
        station.mass_driver = None;
    }
    let r = plan_upgrade_station(&mut g, &mut p, &cfg, &alpha, &channels);
    assert!(matches!(r, Err(AppError::Construction(ConstructionError::NoMassDriver))));
    let cabin = UpgradeElevatorRequest { planet_id: s("Sol-3") };
    assert!(plan_upgrade_elevator(&mut g, &mut p, &cfg, &alpha, &cabin).is_ok());
    assert_eq!(p[0].credits, 900 - 200 - 70);
    let r = plan_upgrade_elevator(&mut g, &mut p, &cfg, &alpha, &cabin);
    assert!(matches!(r, Err(AppError::Construction(ConstructionError::InsufficientGoods { available: 1, .. }))));
}

#[test]
fn credits_checked_by_player() {
    let p = players();
    assert_eq!(check_credits(&p, &s("beta"), 10).ok(), Some(1));
    assert!(matches!(check_credits(&p, &s("beta"), 11), Err(AppError::Construction(ConstructionError::InsufficientCredits { needed: 11, available: 10 }))));
    assert!(matches!(check_credits(&p, &s("gamma"), 0), Err(AppError::PlayerNotFound(ref id)) if id == "gamma"));
}

#[test]
fn projects_listed_and_found_by_owner() {
    let a = open_project(ProjectType::InstallStation, &s("alpha"), &s("Sol-3"), &s("Sol-5"), 500, inv(&[("steel", 20)]), Inventory::new(), ProjectStatus::InTransit, 10, 20, Some(s("New")), None);
    let b = open_project(ProjectType::UpgradeStorage, &s("beta"), &s("Sol-4"), &s("Sol-4"), 50, Inventory::new(), Inventory::new(), ProjectStatus::Building, 11, 21, None, None);
    assert_eq!(a.id >> 76 & 0xF, 4);
    assert_ne!(a.id, b.id);
    assert_eq!(a.created_at, 10);
    let (id_a, id_b) = (a.id, b.id);
    let list = vec![a, b];
    assert_eq!(list_projects(&list, &s("beta")), vec![1]);
    assert_eq!(get_project(&list, id_a, &s("alpha")).ok().unwrap().fee, 500);
    match get_project(&list, id_b, &s("alpha")) {
        Err(AppError::Construction(ConstructionError::ProjectNotFound(text))) => {
            assert_eq!(text.len(), 36);
            assert_eq!(text.chars().nth(14), Some('4'));
        },
        _ => panic!("a project of someone else is not found"),
    }
}

#[test]
fn projects_complete_once() {
    let p = open_project(ProjectType::InstallStation, &s("alpha"), &s("Sol-3"), &s("Sol-5"), 500, Inventory::new(), Inventory::new(), ProjectStatus::InTransit, 10, 20, Some(s("New")), None);
    let id = p.id;
    let mut list = Vec::new();
    insert_project(&mut list, p);
    match complete_project(&mut list, id) {
        Some(ConstructionWebhookPayload::ConstructionComplete { project_id, project_type, target_planet_id }) => {
            assert_eq!(project_id, id);
            assert_eq!(project_type, ProjectType::InstallStation);
            assert_eq!(target_planet_id, "Sol-5");
        },
        None => panic!("an open project completes"),
    }
    assert_eq!(list[0].status, ProjectStatus::Complete);
    assert!(complete_project(&mut list, id).is_none());
    assert!(complete_project(&mut list, id ^ 1).is_none());
}

#[test]
fn project_records_of_each_kind() {
    let cfg = config();
    let alpha = s("alpha");
    let install = install_project(&cfg, &alpha, &install("Sol-3", "Sol-5"), 10, 90);
    assert_eq!((install.project_type, install.status, install.fee), (ProjectType::InstallStation, ProjectStatus::InTransit, 500));
    assert_eq!(install.goods_consumed.get(&s("steel")), 20);
    assert_eq!(install.extra_goods.len(), 0);
    assert_eq!((install.created_at, install.completion_at), (10, 90));
    assert_eq!(install.station_name.as_deref(), Some("New"));
    assert!(install.settlement_name.is_none());
    let body = FoundSettlementRequest {
        source_planet_id: s("Sol-3"),
        target_planet_id: s("Sol-6"),
        settlement_name: s("Colony"),
        station_name: s("Dock"),
        extra_goods: inv(&[("food", 2)]),
    };
    let found = found_project(&cfg, &alpha, &body, 1, 2);
    assert_eq!((found.project_type, found.status, found.fee), (ProjectType::FoundSettlement, ProjectStatus::InTransit, 300));
    assert_eq!(found.goods_consumed.get(&s("food")), 10);
    assert_eq!(found.extra_goods.get(&s("food")), 2);
    assert_eq!(found.settlement_name.as_deref(), Some("Colony"));
    assert_eq!(found.station_name.as_deref(), Some("Dock"));
    let up = upgrade_project(&cfg, &alpha, &UpgradeStationRequest { planet_id: s("Sol-3"), upgrade_type: StationUpgradeType::MassDriverChannels }, 1, 2);
    assert_eq!((up.project_type, up.status, up.fee), (ProjectType::UpgradeMassDriverChannels, ProjectStatus::Building, 200));
    assert_eq!(up.goods_consumed.get(&s("steel")), 8);
    assert_eq!((up.source_planet_id.as_str(), up.target_planet_id.as_str()), ("Sol-3", "Sol-3"));
    let cabin = elevator_project(&cfg, &alpha, &UpgradeElevatorRequest { planet_id: s("Sol-3") }, 1, 2);
    assert_eq!((cabin.project_type, cabin.status, cabin.fee), (ProjectType::UpgradeElevatorCabins, ProjectStatus::Building, 70));
    assert_eq!(cabin.goods_consumed.get(&s("steel")), 3);
}

#[test]
fn huge_extra_goods_still_get_the_target_error() {
    let mut g = galaxy();
    let mut p = players();
    let cfg = config();
    let body = FoundSettlementRequest {
        source_planet_id: s("Sol-3"),
        target_planet_id: s("Sol-5"),
        settlement_name: s("Colony"),
        station_name: s("Dock"),
        extra_goods: inv(&[("food", u64::MAX)]),
    };
    assert!(!found_settlement_overflows(&g, &p, &cfg, &s("alpha"), &body));
    let r = plan_found_settlement(&mut g, &mut p, &cfg, &s("alpha"), &body);
    assert!(matches!(r, Err(AppError::Construction(ConstructionError::TargetNotUninhabited(_)))));
    let open = FoundSettlementRequest { target_planet_id: s("Sol-6"), ..body };
    assert!(found_settlement_overflows(&g, &p, &cfg, &s("alpha"), &open));
    assert!(!found_settlement_overflows(&g, &p, &cfg, &s("beta"), &open));
}
