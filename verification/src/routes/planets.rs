//! Planets of a system: create, list, read, update and delete.
use vstd::prelude::*;

use crate::error::AppError;
use crate::galaxy::{
    find_planet, has_planet, has_system, is_first_planet, is_selection, lemma_planets_replaced_wf,
    lemma_selection_step, one_planet_changed, planet_index, planets_replaced, system_index,
    GalaxyState,
};
use crate::models::{CreatePlanetRequest, Planet, PlanetStatus, PlanetType, UpdatePlanetRequest};
use crate::text::{decimal, generate_planet_id};

verus! {

/// Query of a planet listing.
pub struct PlanetFilter {
    pub planet_type: Option<String>,
}

/// The planet passes the planet-type filter of a listing.
pub open spec fn type_filter_keeps(ps: Seq<Planet>, filter: Option<String>) -> spec_fn(int) -> bool {
    |j: int|
        match filter {
            None => true,
            Some(f) => (ps[j].planet_type is Telluric && f@ == "telluric"@) || (ps[j].planet_type is GasGiant
                && f@ == "gas_giant"@),
        }
}

/// The planet does not have id `id`.
pub open spec fn id_differs(id: Seq<char>) -> spec_fn(Planet) -> bool {
    |p: Planet| p.id@ != id
}

impl GalaxyState {
    /// Adds an uninhabited planet to a system; its id is the system's name,
    /// a hyphen and the position.  Refused when the system already has a
    /// planet with that id.
    pub fn create_planet(&mut self, system_name: &String, req: CreatePlanetRequest) -> (r: Result<(), AppError>)
        requires
            old(self).wf(),
        ensures
            final(self).wf(),
            r is Err ==> final(self).systems@ == old(self).systems@,
            !has_system(old(self).systems@, system_name@) <==> (r matches Err(AppError::SystemNotFound(n))
                && n@ == system_name@),
            has_system(old(self).systems@, system_name@) ==> {
                let i = system_index(old(self).systems@, system_name@);
                let id = system_name@ + seq!['-'] + decimal(req.position as nat);
                let ps = old(self).systems@[i].planets@;
                &&& has_planet(ps, id) <==> (r matches Err(AppError::PlanetAlreadyExists(n)) && n@ == id)
                &&& !has_planet(ps, id) ==> r is Ok
                &&& r is Ok ==> {
                    let np = final(self).systems@[i].planets@;
                    &&& planets_replaced(old(self).systems@, final(self).systems@, i, np)
                    &&& np.len() == ps.len() + 1
                    &&& np.drop_last() == ps
                    &&& np.last().id@ == id
                    &&& np.last().name == req.name
                    &&& np.last().position == req.position
                    &&& np.last().distance_ua_bits == req.distance_ua_bits
                    &&& np.last().planet_type == req.planet_type
                    &&& np.last().status is Uninhabited
                }
            },
    {
        let i = match self.find_system(system_name) {
            Some(i) => i,
            None => return Err(AppError::SystemNotFound(system_name.clone())),
        };
        let planet_id = generate_planet_id(&self.systems[i].name, req.position);
        if find_planet(&self.systems[i].planets, &planet_id).is_some() {
            return Err(AppError::PlanetAlreadyExists(planet_id));
        }
        let planet = Planet {
            id: planet_id,
            name: req.name,
            position: req.position,
            distance_ua_bits: req.distance_ua_bits,
            planet_type: req.planet_type,
            status: PlanetStatus::Uninhabited,
        };
        let ghost before = self.systems@;
        let ghost old_planets = self.systems@[i as int].planets@;
        let system = &mut self.systems[i];
        system.planets.push(planet);
        proof {
            assert(self.systems@[i as int].planets@.drop_last() =~= old_planets);
            lemma_planets_replaced_wf(before, self.systems@, i as int, self.systems@[i as int].planets@);
        }
        Ok(())
    }

    /// Positions of a system's planets, all of them or those of one category
    /// ("telluric" or "gas_giant"; any other filter keeps none).
    pub fn list_planets(&self, system_name: &String, filter: Option<String>) -> (r: Result<Vec<usize>, AppError>)
        requires
            self.wf(),
        ensures
            !has_system(self.systems@, system_name@) <==> (r matches Err(AppError::SystemNotFound(n)) && n@
                == system_name@),
            r matches Ok(v) ==> {
                let ps = self.systems@[system_index(self.systems@, system_name@)].planets@;
                is_selection(v@, ps.len() as int, type_filter_keeps(ps, filter))
            },
            r is Err ==> !has_system(self.systems@, system_name@),
    {
        let i = match self.find_system(system_name) {
            Some(i) => i,
            None => return Err(AppError::SystemNotFound(system_name.clone())),
        };
        let planets = &self.systems[i].planets;
        let ghost keep = type_filter_keeps(planets@, filter);
        let telluric = "telluric".to_owned();
        let gas_giant = "gas_giant".to_owned();
        let n = planets.len();
        let mut out: Vec<usize> = Vec::new();
        let mut j: usize = 0;
        while j < n
            invariant
                n == planets@.len(),
                j <= n,
                keep == type_filter_keeps(planets@, filter),
                telluric@ == "telluric"@,
                gas_giant@ == "gas_giant"@,
                is_selection(out@, j as int, keep),
            decreases n - j,
        {
            let kept = match &filter {
                None => true,
                Some(f) => match planets[j].planet_type {
                    PlanetType::Telluric { .. } => *f == telluric,
                    PlanetType::GasGiant { .. } => *f == gas_giant,
                },
            };
            proof {
                assert(kept == keep(j as int));
                lemma_selection_step(out@, j as int, keep);
            }
            if kept {
                out.push(j);
            }
            j = j + 1;
        }
        Ok(out)
    }

    /// The first planet of the system with id `planet_id`.
    pub fn get_planet(&self, system_name: &String, planet_id: &String) -> (r: Result<&Planet, AppError>)
        requires
            self.wf(),
        ensures
            !has_system(self.systems@, system_name@) <==> (r matches Err(AppError::SystemNotFound(n)) && n@
                == system_name@),
            has_system(self.systems@, system_name@) ==> {
                let ps = self.systems@[system_index(self.systems@, system_name@)].planets@;
                &&& !has_planet(ps, planet_id@) <==> (r matches Err(AppError::PlanetNotFound(n)) && n@
                    == planet_id@)
                &&& has_planet(ps, planet_id@) ==> (r matches Ok(p) && *p == ps[planet_index(ps, planet_id@)])
            },
    {
        let i = match self.find_system(system_name) {
            Some(i) => i,
            None => return Err(AppError::SystemNotFound(system_name.clone())),
        };
        match find_planet(&self.systems[i].planets, planet_id) {
            Some(j) => Ok(&self.systems[i].planets[j]),
            None => Err(AppError::PlanetNotFound(planet_id.clone())),
        }
    }

    /// Changes the name, distance or category of the first planet of the
    /// system with id `planet_id`.
    pub fn update_planet(&mut self, system_name: &String, planet_id: &String, req: UpdatePlanetRequest) -> (r: Result<(), AppError>)
        requires
            old(self).wf(),
        ensures
            final(self).wf(),
            r is Err ==> final(self).systems@ == old(self).systems@,
            !has_system(old(self).systems@, system_name@) <==> (r matches Err(AppError::SystemNotFound(n))
                && n@ == system_name@),
            has_system(old(self).systems@, system_name@) ==> {
                let i = system_index(old(self).systems@, system_name@);
                let ps = old(self).systems@[i].planets@;
                &&& !has_planet(ps, planet_id@) <==> (r matches Err(AppError::PlanetNotFound(n)) && n@
                    == planet_id@)
                &&& has_planet(ps, planet_id@) ==> {
                    let j = planet_index(ps, planet_id@);
                    let o = ps[j];
                    let p = final(self).systems@[i].planets@[j];
                    &&& r is Ok
                    &&& one_planet_changed(old(self).systems@, final(self).systems@, i, j)
                    &&& p.id == o.id
                    &&& p.name == (match req.name { Some(n) => n, None => o.name })
                    &&& p.position == o.position
                    &&& p.distance_ua_bits == (match req.distance_ua_bits { Some(d) => d, None => o.distance_ua_bits })
                    &&& p.planet_type == (match req.planet_type { Some(t) => t, None => o.planet_type })
                    &&& p.status == o.status
                }
            },
    {
        let i = match self.find_system(system_name) {
            Some(i) => i,
            None => return Err(AppError::SystemNotFound(system_name.clone())),
        };
        let j = match find_planet(&self.systems[i].planets, planet_id) {
            Some(j) => j,
            None => return Err(AppError::PlanetNotFound(planet_id.clone())),
        };
        let ghost before = self.systems@;
        let planet = &mut self.systems[i].planets[j];
        if let Some(name) = req.name {
            planet.name = name;
        }
        if let Some(d) = req.distance_ua_bits {
            planet.distance_ua_bits = d;
        }
        if let Some(t) = req.planet_type {
            planet.planet_type = t;
        }
        proof {
            lemma_planets_replaced_wf(before, self.systems@, i as int, self.systems@[i as int].planets@);
        }
        Ok(())
    }

    /// Removes every planet of the system with id `planet_id`; refused when
    /// there is none.
    pub fn delete_planet(&mut self, system_name: &String, planet_id: &String) -> (r: Result<(), AppError>)
        requires
            old(self).wf(),
        ensures
            final(self).wf(),
            r is Err ==> final(self).systems@ == old(self).systems@,
            !has_system(old(self).systems@, system_name@) <==> (r matches Err(AppError::SystemNotFound(n))
                && n@ == system_name@),
            has_system(old(self).systems@, system_name@) ==> {
                let i = system_index(old(self).systems@, system_name@);
                let ps = old(self).systems@[i].planets@;
                &&& !has_planet(ps, planet_id@) <==> (r matches Err(AppError::PlanetNotFound(n)) && n@
                    == planet_id@)
                &&& has_planet(ps, planet_id@) ==> r is Ok && planets_replaced(
                    old(self).systems@,
                    final(self).systems@,
                    i,
                    ps.filter(id_differs(planet_id@)),
                )
            },
    {
        let i = match self.find_system(system_name) {
            Some(i) => i,
            None => return Err(AppError::SystemNotFound(system_name.clone())),
        };
        if find_planet(&self.systems[i].planets, planet_id).is_none() {
            return Err(AppError::PlanetNotFound(planet_id.clone()));
        }
        let ghost before = self.systems@;
        let ghost ps = self.systems@[i as int].planets@;
        let ghost pred = id_differs(planet_id@);
        let mut rest: Vec<Planet> = Vec::new();
        std::mem::swap(&mut rest, &mut self.systems[i].planets);
        let mut kept: Vec<Planet> = Vec::new();
        let n = rest.len();
        let mut k: usize = 0;
        while k < n
            invariant
                n == ps.len(),
                k <= n,
                rest@ == ps.skip(k as int),
                kept@ == ps.take(k as int).filter(pred),
                pred == id_differs(planet_id@),
            decreases n - k,
        {
            let p = rest.remove(0);
            proof {
                assert(p == ps[k as int]);
                assert(ps.take(k + 1).drop_last() =~= ps.take(k as int));
                reveal_with_fuel(Seq::<_>::filter, 1);
            }
            if p.id != *planet_id {
                kept.push(p);
            }
            k = k + 1;
            proof {
                assert(rest@ =~= ps.skip(k as int));
            }
        }
        proof {
            assert(ps.take(n as int) =~= ps);
        }
        self.systems[i].planets = kept;
        proof {
            lemma_planets_replaced_wf(before, self.systems@, i as int, self.systems@[i as int].planets@);
        }
        Ok(())
    }
}

} // verus!
