//! Stations of planets: read, build or replace, delete.
use vstd::prelude::*;

use crate::error::AppError;
use crate::galaxy::{
    find_planet, has_planet, has_system, lemma_planets_replaced_wf, one_planet_changed,
    only_status_changed, planet_index, system_index, GalaxyState,
};
use crate::inventory::Inventory;
use crate::models::{
    default_cabin_count, default_docking_bays, default_max_storage, CreateStationRequest,
    MassDriver, PlanetStatus, SpaceElevator, Station, Warehouse,
};

verus! {

/// `new` is the status after building or replacing the station of a planet
/// in status `old`: the station is named and owned as requested and starts
/// empty; a new station gets a mass driver with `channels` channels and a
/// space elevator whose warehouse belongs to the owner, while a replaced
/// station keeps its mass driver, bays and storage limit and the elevator.
pub open spec fn station_installed(old: PlanetStatus, new: PlanetStatus, name: String, owner_id: String, channels: u32) -> bool {
    match new {
        PlanetStatus::Connected { settlement, station, space_elevator } => {
            &&& station.name == name
            &&& station.owner_id == owner_id
            &&& station.inventory@ == Map::<Seq<char>, u64>::empty()
            &&& match old {
                PlanetStatus::Settled { settlement: s0 } => {
                    &&& settlement == s0
                    &&& station.mass_driver == Some(MassDriver { channels })
                    &&& station.docking_bays == 2
                    &&& station.max_storage == u64::MAX
                    &&& space_elevator.warehouse.owner_id == owner_id
                    &&& space_elevator.warehouse.inventory@ == Map::<Seq<char>, u64>::empty()
                    &&& space_elevator.cabin_count == 2
                },
                PlanetStatus::Connected { settlement: s0, station: st0, space_elevator: el0 } => {
                    &&& settlement == s0
                    &&& space_elevator == el0
                    &&& station.mass_driver == st0.mass_driver
                    &&& station.docking_bays == st0.docking_bays
                    &&& station.max_storage == st0.max_storage
                },
                PlanetStatus::Uninhabited => false,
            }
        },
        _ => false,
    }
}

impl GalaxyState {
    /// The station of the first planet of the system with id `planet_id`.
    pub fn get_station(&self, system_name: &String, planet_id: &String) -> (r: Result<&Station, AppError>)
        requires
            self.wf(),
        ensures
            !has_system(self.systems@, system_name@) <==> (r matches Err(AppError::SystemNotFound(n)) && n@
                == system_name@),
            has_system(self.systems@, system_name@) ==> {
                let ps = self.systems@[system_index(self.systems@, system_name@)].planets@;
                &&& !has_planet(ps, planet_id@) <==> (r matches Err(AppError::PlanetNotFound(n)) && n@
                    == planet_id@)
                &&& has_planet(ps, planet_id@) ==> {
                    let p = ps[planet_index(ps, planet_id@)];
                    &&& p.status is Uninhabited <==> (r matches Err(AppError::SettlementNotFound(n)) && n@
                        == planet_id@)
                    &&& p.status is Settled <==> (r matches Err(AppError::StationNotFound(n)) && n@
                        == planet_id@)
                    &&& p.status is Connected ==> (r matches Ok(st) && p.status matches PlanetStatus::Connected { station, .. } && *st == station)
                }
            },
    {
        let i = match self.find_system(system_name) {
            Some(i) => i,
            None => return Err(AppError::SystemNotFound(system_name.clone())),
        };
        let j = match find_planet(&self.systems[i].planets, planet_id) {
            Some(j) => j,
            None => return Err(AppError::PlanetNotFound(planet_id.clone())),
        };
        match &self.systems[i].planets[j].status {
            PlanetStatus::Connected { station, .. } => Ok(station),
            PlanetStatus::Settled { .. } => Err(AppError::StationNotFound(planet_id.clone())),
            PlanetStatus::Uninhabited => Err(AppError::SettlementNotFound(planet_id.clone())),
        }
    }

    /// Builds a station, with its mass driver and space elevator, on a
    /// settled planet, or replaces the station of a connected one; an
    /// uninhabited planet needs a settlement first.  Answers whether the
    /// station is new.
    pub fn create_or_update_station(
        &mut self,
        system_name: &String,
        planet_id: &String,
        req: CreateStationRequest,
        default_channels: u32,
    ) -> (r: Result<bool, AppError>)
        requires
            old(self).wf(),
        ensures
            final(self).wf(),
            r is Err ==> final(self).systems@ == old(self).systems@,
            !has_system(old(self).systems@, system_name@) <==> (r matches Err(AppError::SystemNotFound(n))
                && n@ == system_name@),
            has_system(old(self).systems@, system_name@) ==> {
                let i = system_index(old(self).systems@, system_name@);
                let ps = old(self).systems@[i].planets@;
                &&& !has_planet(ps, planet_id@) <==> (r matches Err(AppError::PlanetNotFound(n)) && n@
                    == planet_id@)
                &&& has_planet(ps, planet_id@) ==> {
                    let j = planet_index(ps, planet_id@);
                    let p = final(self).systems@[i].planets@[j];
                    &&& ps[j].status is Uninhabited <==> (r matches Err(AppError::SettlementRequired(n))
                        && n@ == planet_id@)
                    &&& !(ps[j].status is Uninhabited) ==> {
                        &&& r == Ok::<bool, AppError>(ps[j].status is Settled)
                        &&& one_planet_changed(old(self).systems@, final(self).systems@, i, j)
                        &&& only_status_changed(ps[j], p)
                        &&& station_installed(ps[j].status, p.status, req.name, req.owner_id, default_channels)
                    }
                }
            },
    {
        let i = match self.find_system(system_name) {
            Some(i) => i,
            None => return Err(AppError::SystemNotFound(system_name.clone())),
        };
        let j = match find_planet(&self.systems[i].planets, planet_id) {
            Some(j) => j,
            None => return Err(AppError::PlanetNotFound(planet_id.clone())),
        };
        if let PlanetStatus::Uninhabited = self.systems[i].planets[j].status {
            return Err(AppError::SettlementRequired(planet_id.clone()));
        }
        let ghost before = self.systems@;
        let planet = &mut self.systems[i].planets[j];
        let mut status = PlanetStatus::Uninhabited;
        std::mem::swap(&mut status, &mut planet.status);
        let warehouse_owner = req.owner_id.clone();
        let (created, new_status) = match status {
            PlanetStatus::Settled { settlement } => {
                let station = Station {
                    name: req.name,
                    owner_id: req.owner_id,
                    inventory: Inventory::new(),
                    mass_driver: Some(MassDriver::new(default_channels)),
                    docking_bays: default_docking_bays(),
                    max_storage: default_max_storage(),
                };
                let space_elevator = SpaceElevator {
                    warehouse: Warehouse::empty(warehouse_owner),
                    cabin_count: default_cabin_count(),
                };
                (true, PlanetStatus::Connected { settlement, station, space_elevator })
            },
            PlanetStatus::Connected { settlement, station: existing, space_elevator } => {
                let station = Station {
                    name: req.name,
                    owner_id: req.owner_id,
                    inventory: Inventory::new(),
                    mass_driver: existing.mass_driver,
                    docking_bays: existing.docking_bays,
                    max_storage: existing.max_storage,
                };
                (false, PlanetStatus::Connected { settlement, station, space_elevator })
            },
            PlanetStatus::Uninhabited => (false, PlanetStatus::Uninhabited),
        };
        planet.status = new_status;
        proof {
            lemma_planets_replaced_wf(before, self.systems@, i as int, self.systems@[i as int].planets@);
        }
        Ok(created)
    }

    /// Removes the station (and its space elevator) of the first planet of
    /// the system with id `planet_id`, leaving its settlement.
    pub fn delete_station(&mut self, system_name: &String, planet_id: &String) -> (r: Result<(), AppError>)
        requires
            old(self).wf(),
        ensures
            final(self).wf(),
            r is Err ==> final(self).systems@ == old(self).systems@,
            !has_system(old(self).systems@, system_name@) <==> (r matches Err(AppError::SystemNotFound(n))
                && n@ == system_name@),
            has_system(old(self).systems@, system_name@) ==> {
                let i = system_index(old(self).systems@, system_name@);
                let ps = old(self).systems@[i].planets@;
                &&& !has_planet(ps, planet_id@) <==> (r matches Err(AppError::PlanetNotFound(n)) && n@
                    == planet_id@)
                &&& has_planet(ps, planet_id@) ==> {
                    let j = planet_index(ps, planet_id@);
                    let p = final(self).systems@[i].planets@[j];
                    &&& ps[j].status is Uninhabited <==> (r matches Err(AppError::SettlementNotFound(n))
                        && n@ == planet_id@)
                    &&& ps[j].status is Settled <==> (r matches Err(AppError::StationNotFound(n)) && n@
                        == planet_id@)
                    &&& ps[j].status is Connected ==> {
                        &&& r is Ok
                        &&& one_planet_changed(old(self).systems@, final(self).systems@, i, j)
                        &&& only_status_changed(ps[j], p)
                        &&& ps[j].status matches PlanetStatus::Connected { settlement: s0, .. }
                        &&& p.status == PlanetStatus::Settled { settlement: s0 }
                    }
                }
            },
    {
        let i = match self.find_system(system_name) {
            Some(i) => i,
            None => return Err(AppError::SystemNotFound(system_name.clone())),
        };
        let j = match find_planet(&self.systems[i].planets, planet_id) {
            Some(j) => j,
            None => return Err(AppError::PlanetNotFound(planet_id.clone())),
        };
        match self.systems[i].planets[j].status {
            PlanetStatus::Connected { .. } => {},
            PlanetStatus::Settled { .. } => return Err(AppError::StationNotFound(planet_id.clone())),
            PlanetStatus::Uninhabited => return Err(AppError::SettlementNotFound(planet_id.clone())),
        }
        let ghost before = self.systems@;
        let planet = &mut self.systems[i].planets[j];
        let mut status = PlanetStatus::Uninhabited;
        std::mem::swap(&mut status, &mut planet.status);
        let new_status = match status {
            PlanetStatus::Connected { settlement, .. } => PlanetStatus::Settled { settlement },
            other => other,
        };
        planet.status = new_status;
        proof {
            lemma_planets_replaced_wf(before, self.systems@, i as int, self.systems@[i as int].planets@);
        }
        Ok(())
    }
}

} // verus!
