use offworld_trading_manager::error::{AppError, SystemsError};
use offworld_trading_manager::galaxy::GalaxyState;
use offworld_trading_manager::models::{
    ClimateType, Coordinates, CreatePlanetRequest, CreateSettlementRequest, CreateStationRequest,
    CreateSystemRequest, GasGiantType, PlanetStatus, PlanetType, StarType, UpdatePlanetRequest,
    UpdateSystemRequest,
};
use offworld_trading_manager::text::generate_planet_id;

fn coords(x: f64) -> Coordinates {
    Coordinates { x_bits: x.to_bits(), y_bits: 0f64.to_bits(), z_bits: 0f64.to_bits() }
}

fn system_req(name: &str, star: StarType) -> CreateSystemRequest {
    CreateSystemRequest { name: name.to_string(), coordinates: coords(1.5), star_type: star }
}

fn planet_req(name: &str, position: u32, gas: bool) -> CreatePlanetRequest {
    CreatePlanetRequest {
        name: name.to_string(),
        position,
        distance_ua_bits: (position as f64).to_bits(),
        planet_type: if gas {
            PlanetType::GasGiant { gas_type: GasGiantType::Jovian }
        } else {
            PlanetType::Telluric { climate: ClimateType::Temperate }
        },
    }
}

fn s(x: &str) -> String {
    x.to_string()
}

fn galaxy_with_sol() -> GalaxyState {
    let mut g = GalaxyState::new();
    assert!(g.create_system(system_req("Sol", StarType::YellowDwarf)).is_ok());
    assert!(g.create_planet(&s("Sol"), planet_req("Earth", 3, false)).is_ok());
    assert!(g.create_planet(&s("Sol"), planet_req("Jupiter", 5, true)).is_ok());
    g
}

#[test]
fn planet_id_is_star_hyphen_position() {
    assert_eq!(generate_planet_id(&s("Sol"), 3), "Sol-3");
    assert_eq!(generate_planet_id(&s("Alpha Centauri"), 0), "Alpha Centauri-0");
    assert_eq!(generate_planet_id(&s("X"), 4294967295), "X-4294967295");
    assert_eq!(generate_planet_id(&s(""), 120), "-120");
}

#[test]
fn create_system_then_get() {
    let mut g = GalaxyState::new();
    assert!(g.create_system(system_req("Sol", StarType::YellowDwarf)).is_ok());
    let sys = g.get_system(&s("Sol")).ok().unwrap();
    assert_eq!(sys.name, "Sol");
    assert_eq!(sys.star_type, StarType::YellowDwarf);
    assert_eq!(sys.coordinates, coords(1.5));
    assert!(sys.planets.is_empty());
}

#[test]
fn create_system_twice_conflicts() {
    let mut g = GalaxyState::new();
    assert!(g.create_system(system_req("Sol", StarType::YellowDwarf)).is_ok());
    let e = g.create_system(system_req("Sol", StarType::RedDwarf)).err().unwrap();
    assert_eq!(e, SystemsError::Conflict);
    assert_eq!(e.status_code(), 409);
    assert_eq!(g.systems.len(), 1);
    assert_eq!(g.systems[0].star_type, StarType::YellowDwarf);
}

#[test]
fn list_systems_by_star_type() {
    let mut g = GalaxyState::new();
    assert!(g.create_system(system_req("A", StarType::RedDwarf)).is_ok());
    assert!(g.create_system(system_req("B", StarType::BlueGiant)).is_ok());
    assert!(g.create_system(system_req("C", StarType::RedDwarf)).is_ok());
    assert_eq!(g.list_systems(None), vec![0, 1, 2]);
    assert_eq!(g.list_systems(Some(StarType::RedDwarf)), vec![0, 2]);
    assert_eq!(g.list_systems(Some(StarType::Neutron)), Vec::<usize>::new());
}

#[test]
fn update_system_rename_and_conflict() {
    let mut g = GalaxyState::new();
    assert!(g.create_system(system_req("A", StarType::RedDwarf)).is_ok());
    assert!(g.create_system(system_req("B", StarType::BlueGiant)).is_ok());
    let clash = UpdateSystemRequest { name: Some(s("B")), coordinates: None, star_type: None };
    assert_eq!(g.update_system(&s("A"), clash).err().unwrap(), SystemsError::Conflict);
    let missing = UpdateSystemRequest { name: Some(s("Z")), coordinates: None, star_type: None };
    assert_eq!(g.update_system(&s("Q"), missing).err().unwrap(), SystemsError::NotFound);
    let rename = UpdateSystemRequest { name: Some(s("A2")), coordinates: None, star_type: Some(StarType::Neutron) };
    assert!(g.update_system(&s("A"), rename).is_ok());
    assert!(g.get_system(&s("A")).is_err());
    let a2 = g.get_system(&s("A2")).ok().unwrap();
    assert_eq!(a2.star_type, StarType::Neutron);
    let same = UpdateSystemRequest { name: Some(s("B")), coordinates: None, star_type: None };
    assert!(g.update_system(&s("B"), same).is_ok());
}

#[test]
fn delete_system_then_not_found() {
    let mut g = galaxy_with_sol();
    assert!(g.delete_system(&s("Sol")).is_ok());
    assert_eq!(g.get_system(&s("Sol")).err().unwrap(), SystemsError::NotFound);
    assert_eq!(g.delete_system(&s("Sol")).err().unwrap(), SystemsError::NotFound);
}

#[test]
fn create_planet_and_get() {
    let g = galaxy_with_sol();
    let p = g.get_planet(&s("Sol"), &s("Sol-3")).ok().unwrap();
    assert_eq!(p.name, "Earth");
    assert_eq!(p.position, 3);
    assert!(matches!(p.status, PlanetStatus::Uninhabited));
}

#[test]
fn create_planet_duplicate_position() {
    let mut g = galaxy_with_sol();
    let e = g.create_planet(&s("Sol"), planet_req("Other Earth", 3, false)).err().unwrap();
    assert!(matches!(e, AppError::PlanetAlreadyExists(ref id) if id == "Sol-3"));
    assert_eq!(e.status_code(), 409);
    let e = g.create_planet(&s("Vega"), planet_req("V", 1, false)).err().unwrap();
    assert!(matches!(e, AppError::SystemNotFound(ref n) if n == "Vega"));
}

#[test]
fn list_planets_by_category() {
    let g = galaxy_with_sol();
    assert_eq!(g.list_planets(&s("Sol"), None).ok().unwrap(), vec![0, 1]);
    assert_eq!(g.list_planets(&s("Sol"), Some(s("telluric"))).ok().unwrap(), vec![0]);
    assert_eq!(g.list_planets(&s("Sol"), Some(s("gas_giant"))).ok().unwrap(), vec![1]);
    assert_eq!(g.list_planets(&s("Sol"), Some(s("ice"))).ok().unwrap(), Vec::<usize>::new());
    assert!(g.list_planets(&s("Vega"), None).is_err());
}

#[test]
fn update_and_delete_planet() {
    let mut g = galaxy_with_sol();
    let upd = UpdatePlanetRequest { name: Some(s("Terra")), distance_ua_bits: Some(1.0f64.to_bits()), planet_type: None };
    assert!(g.update_planet(&s("Sol"), &s("Sol-3"), upd).is_ok());
    let p = g.get_planet(&s("Sol"), &s("Sol-3")).ok().unwrap();
    assert_eq!(p.name, "Terra");
    assert_eq!(f64::from_bits(p.distance_ua_bits), 1.0);
    assert!(g.delete_planet(&s("Sol"), &s("Sol-3")).is_ok());
    let e = g.get_planet(&s("Sol"), &s("Sol-3")).err().unwrap();
    assert!(matches!(e, AppError::PlanetNotFound(ref n) if n == "Sol-3"));
    assert_eq!(e.status_code(), 404);
    assert!(g.delete_planet(&s("Sol"), &s("Sol-3")).is_err());
    assert_eq!(g.systems[0].planets.len(), 1);
}

#[test]
fn settlement_lifecycle() {
    let mut g = galaxy_with_sol();
    let e = g.get_settlement(&s("Sol"), &s("Sol-3")).err().unwrap();
    assert!(matches!(e, AppError::SettlementNotFound(_)));
    let created = g
        .create_or_update_settlement(&s("Sol"), &s("Sol-3"), CreateSettlementRequest { name: s("Houston"), population: None })
        .ok()
        .unwrap();
    assert!(created);
    let st = g.get_settlement(&s("Sol"), &s("Sol-3")).ok().unwrap();
    assert_eq!(st.name, "Houston");
    assert_eq!(st.population, 0);
    let created = g
        .create_or_update_settlement(&s("Sol"), &s("Sol-3"), CreateSettlementRequest { name: s("Austin"), population: Some(7) })
        .ok()
        .unwrap();
    assert!(!created);
    assert_eq!(g.get_settlement(&s("Sol"), &s("Sol-3")).ok().unwrap().population, 7);
    assert_eq!(g.list_settlements_in_system(&s("Sol")).ok().unwrap(), vec![0]);
    assert!(g.delete_settlement(&s("Sol"), &s("Sol-3")).is_ok());
    assert!(g.delete_settlement(&s("Sol"), &s("Sol-3")).is_err());
    assert_eq!(g.list_settlements_in_system(&s("Sol")).ok().unwrap(), Vec::<usize>::new());
}

#[test]
fn station_needs_settlement_and_round_trips() {
    let mut g = galaxy_with_sol();
    let req = || CreateStationRequest { name: s("Gateway"), owner_id: s("alpha-team") };
    let e = g.create_or_update_station(&s("Sol"), &s("Sol-3"), req(), 4).err().unwrap();
    assert!(matches!(e, AppError::SettlementRequired(ref n) if n == "Sol-3"));
    assert_eq!(e.status_code(), 400);
    assert!(g
        .create_or_update_settlement(&s("Sol"), &s("Sol-3"), CreateSettlementRequest { name: s("Houston"), population: Some(5) })
        .is_ok());
    let e = g.get_station(&s("Sol"), &s("Sol-3")).err().unwrap();
    assert!(matches!(e, AppError::StationNotFound(_)));
    assert!(g.create_or_update_station(&s("Sol"), &s("Sol-3"), req(), 4).ok().unwrap());
    {
        let st = g.get_station(&s("Sol"), &s("Sol-3")).ok().unwrap();
        assert_eq!(st.name, "Gateway");
        assert_eq!(st.owner_id, "alpha-team");
        assert_eq!(st.mass_driver.as_ref().unwrap().channels, 4);
        assert_eq!(st.docking_bays, 2);
        assert_eq!(st.max_storage, u64::MAX);
    }
    let again = CreateStationRequest { name: s("Gateway II"), owner_id: s("beta-team") };
    assert!(!g.create_or_update_station(&s("Sol"), &s("Sol-3"), again, 9).ok().unwrap());
    {
        let st = g.get_station(&s("Sol"), &s("Sol-3")).ok().unwrap();
        assert_eq!(st.owner_id, "beta-team");
        assert_eq!(st.mass_driver.as_ref().unwrap().channels, 4);
    }
    assert!(g.delete_station(&s("Sol"), &s("Sol-3")).is_ok());
    let st = g.get_settlement(&s("Sol"), &s("Sol-3")).ok().unwrap();
    assert_eq!(st.name, "Houston");
    assert_eq!(st.population, 5);
    assert!(matches!(g.delete_station(&s("Sol"), &s("Sol-3")).err().unwrap(), AppError::StationNotFound(_)));
}

#[test]
fn galaxy_from_systems_needs_distinct_names() {
    let a = galaxy_with_sol();
    let b = galaxy_with_sol();
    let mut both = a.systems;
    both.extend(b.systems);
    assert!(GalaxyState::from_systems(both).is_none());
    let mut g = galaxy_with_sol();
    assert!(g.create_system(system_req("Vega", StarType::BlueGiant)).is_ok());
    let rebuilt = GalaxyState::from_systems(g.systems).unwrap();
    assert_eq!(rebuilt.systems.len(), 2);
    assert_eq!(rebuilt.systems[1].name, "Vega");
}
