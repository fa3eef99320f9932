//! Settlements of planets: list, read, create or replace, delete.
use vstd::prelude::*;

use crate::error::AppError;
use crate::galaxy::{
    find_planet, has_planet, has_system, is_selection, lemma_planets_replaced_wf,
    lemma_selection_step, one_planet_changed, only_status_changed, planet_index, system_index,
    GalaxyState,
};
use crate::inventory::Inventory;
use crate::models::{CreateSettlementRequest, Economy, Planet, PlanetStatus, Settlement};

verus! {

/// The planet is settled or connected.
pub open spec fn inhabited_keeps(ps: Seq<Planet>) -> spec_fn(int) -> bool {
    |j: int| !(ps[j].status is Uninhabited)
}

/// The settlement of a planet status, if it has one.
pub open spec fn settlement_of(s: PlanetStatus) -> Option<Settlement> {
    match s {
        PlanetStatus::Uninhabited => None,
        PlanetStatus::Settled { settlement } => Some(settlement),
        PlanetStatus::Connected { settlement, .. } => Some(settlement),
    }
}

/// A settlement just founded with this name and population, with no economy
/// and no founding goods.
pub open spec fn is_fresh_settlement(s: Settlement, name: String, population: u64) -> bool {
    &&& s.name == name
    &&& s.population == population
    &&& s.economy.supply@ == Map::<Seq<char>, u64>::empty()
    &&& s.economy.demand@ == Map::<Seq<char>, u64>::empty()
    &&& s.founding_goods@ == Map::<Seq<char>, u64>::empty()
}

/// `new` replaces the settlement of `old` by a fresh one and keeps any station.
pub open spec fn settlement_replaced(old: PlanetStatus, new: PlanetStatus, name: String, population: u64) -> bool {
    match old {
        PlanetStatus::Connected { station: st0, space_elevator: el0, .. } => match new {
            PlanetStatus::Connected { settlement, station, space_elevator } => is_fresh_settlement(
                settlement,
                name,
                population,
            ) && station == st0 && space_elevator == el0,
            _ => false,
        },
        _ => match new {
            PlanetStatus::Settled { settlement } => is_fresh_settlement(settlement, name, population),
            _ => false,
        },
    }
}

impl GalaxyState {
    /// Positions of the system's planets that have a settlement.
    pub fn list_settlements_in_system(&self, system_name: &String) -> (r: Result<Vec<usize>, AppError>)
        requires
            self.wf(),
        ensures
            !has_system(self.systems@, system_name@) <==> (r matches Err(AppError::SystemNotFound(n)) && n@
                == system_name@),
            r is Err ==> !has_system(self.systems@, system_name@),
            r matches Ok(v) ==> {
                let ps = self.systems@[system_index(self.systems@, system_name@)].planets@;
                is_selection(v@, ps.len() as int, inhabited_keeps(ps))
            },
    {
        let i = match self.find_system(system_name) {
            Some(i) => i,
            None => return Err(AppError::SystemNotFound(system_name.clone())),
        };
        let planets = &self.systems[i].planets;
        let ghost keep = inhabited_keeps(planets@);
        let n = planets.len();
        let mut out: Vec<usize> = Vec::new();
        let mut j: usize = 0;
        while j < n
            invariant
                n == planets@.len(),
                j <= n,
                keep == inhabited_keeps(planets@),
                is_selection(out@, j as int, keep),
            decreases n - j,
        {
            let kept = match planets[j].status {
                PlanetStatus::Uninhabited => false,
                _ => true,
            };
            proof {
                lemma_selection_step(out@, j as int, keep);
            }
            if kept {
                out.push(j);
            }
            j = j + 1;
        }
        Ok(out)
    }

    /// The settlement of the first planet of the system with id `planet_id`.
    pub fn get_settlement(&self, system_name: &String, planet_id: &String) -> (r: Result<&Settlement, AppError>)
        requires
            self.wf(),
        ensures
            !has_system(self.systems@, system_name@) <==> (r matches Err(AppError::SystemNotFound(n)) && n@
                == system_name@),
            has_system(self.systems@, system_name@) ==> {
                let ps = self.systems@[system_index(self.systems@, system_name@)].planets@;
                &&& !has_planet(ps, planet_id@) <==> (r matches Err(AppError::PlanetNotFound(n)) && n@
                    == planet_id@)
                &&& has_planet(ps, planet_id@) ==> {
                    let p = ps[planet_index(ps, planet_id@)];
                    &&& p.status is Uninhabited <==> (r matches Err(AppError::SettlementNotFound(n)) && n@
                        == planet_id@)
                    &&& !(p.status is Uninhabited) ==> (r matches Ok(s) && Some(*s) == settlement_of(p.status))
                }
            },
    {
        let i = match self.find_system(system_name) {
            Some(i) => i,
            None => return Err(AppError::SystemNotFound(system_name.clone())),
        };
        let j = match find_planet(&self.systems[i].planets, planet_id) {
            Some(j) => j,
            None => return Err(AppError::PlanetNotFound(planet_id.clone())),
        };
        match &self.systems[i].planets[j].status {
            PlanetStatus::Settled { settlement } => Ok(settlement),
            PlanetStatus::Connected { settlement, .. } => Ok(settlement),
            PlanetStatus::Uninhabited => Err(AppError::SettlementNotFound(planet_id.clone())),
        }
    }

    /// Gives the first planet of the system with id `planet_id` a new
    /// settlement (population zero unless given); a station stays.  Answers
    /// whether the planet was uninhabited before.
    pub fn create_or_update_settlement(
        &mut self,
        system_name: &String,
        planet_id: &String,
        req: CreateSettlementRequest,
    ) -> (r: Result<bool, AppError>)
        requires
            old(self).wf(),
        ensures
            final(self).wf(),
            r is Err ==> final(self).systems@ == old(self).systems@,
            !has_system(old(self).systems@, system_name@) <==> (r matches Err(AppError::SystemNotFound(n))
                && n@ == system_name@),
            has_system(old(self).systems@, system_name@) ==> {
                let i = system_index(old(self).systems@, system_name@);
                let ps = old(self).systems@[i].planets@;
                &&& !has_planet(ps, planet_id@) <==> (r matches Err(AppError::PlanetNotFound(n)) && n@
                    == planet_id@)
                &&& has_planet(ps, planet_id@) ==> {
                    let j = planet_index(ps, planet_id@);
                    let p = final(self).systems@[i].planets@[j];
                    &&& r == Ok::<bool, AppError>(ps[j].status is Uninhabited)
                    &&& one_planet_changed(old(self).systems@, final(self).systems@, i, j)
                    &&& only_status_changed(ps[j], p)
                    &&& settlement_replaced(
                        ps[j].status,
                        p.status,
                        req.name,
                        match req.population { Some(n) => n, None => 0 },
                    )
                }
            },
    {
        let i = match self.find_system(system_name) {
            Some(i) => i,
            None => return Err(AppError::SystemNotFound(system_name.clone())),
        };
        let j = match find_planet(&self.systems[i].planets, planet_id) {
            Some(j) => j,
            None => return Err(AppError::PlanetNotFound(planet_id.clone())),
        };
        let population = match req.population {
            Some(n) => n,
            None => 0,
        };
        let settlement = Settlement {
            name: req.name,
            population,
            economy: Economy::empty(),
            founding_goods: Inventory::new(),
        };
        let ghost before = self.systems@;
        let planet = &mut self.systems[i].planets[j];
        let mut status = PlanetStatus::Uninhabited;
        std::mem::swap(&mut status, &mut planet.status);
        let (created, new_status) = match status {
            PlanetStatus::Uninhabited => (true, PlanetStatus::Settled { settlement }),
            PlanetStatus::Settled { .. } => (false, PlanetStatus::Settled { settlement }),
            PlanetStatus::Connected { station, space_elevator, .. } => (
                false,
                PlanetStatus::Connected { settlement, station, space_elevator },
            ),
        };
        planet.status = new_status;
        proof {
            lemma_planets_replaced_wf(before, self.systems@, i as int, self.systems@[i as int].planets@);
        }
        Ok(created)
    }

    /// Removes the settlement (and any station) of the first planet of the
    /// system with id `planet_id`.
    pub fn delete_settlement(&mut self, system_name: &String, planet_id: &String) -> (r: Result<(), AppError>)
        requires
            old(self).wf(),
        ensures
            final(self).wf(),
            r is Err ==> final(self).systems@ == old(self).systems@,
            !has_system(old(self).systems@, system_name@) <==> (r matches Err(AppError::SystemNotFound(n))
                && n@ == system_name@),
            has_system(old(self).systems@, system_name@) ==> {
                let i = system_index(old(self).systems@, system_name@);
                let ps = old(self).systems@[i].planets@;
                &&& !has_planet(ps, planet_id@) <==> (r matches Err(AppError::PlanetNotFound(n)) && n@
                    == planet_id@)
                &&& has_planet(ps, planet_id@) ==> {
                    let j = planet_index(ps, planet_id@);
                    let p = final(self).systems@[i].planets@[j];
                    &&& ps[j].status is Uninhabited <==> (r matches Err(AppError::SettlementNotFound(n)) && n@
                        == planet_id@)
                    &&& !(ps[j].status is Uninhabited) ==> {
                        &&& r is Ok
                        &&& one_planet_changed(old(self).systems@, final(self).systems@, i, j)
                        &&& only_status_changed(ps[j], p)
                        &&& p.status is Uninhabited
                    }
                }
            },
    {
        let i = match self.find_system(system_name) {
            Some(i) => i,
            None => return Err(AppError::SystemNotFound(system_name.clone())),
        };
        let j = match find_planet(&self.systems[i].planets, planet_id) {
            Some(j) => j,
            None => return Err(AppError::PlanetNotFound(planet_id.clone())),
        };
        if let PlanetStatus::Uninhabited = self.systems[i].planets[j].status {
            return Err(AppError::SettlementNotFound(planet_id.clone()));
        }
        let ghost before = self.systems@;
        self.systems[i].planets[j].status = PlanetStatus::Uninhabited;
        proof {
            lemma_planets_replaced_wf(before, self.systems@, i as int, self.systems@[i as int].planets@);
        }
        Ok(())
    }
}

} // verus!
