//! Star systems: create, list, read, update and delete.
use vstd::prelude::*;

use crate::error::SystemsError;
use crate::galaxy::{
    has_system, is_selection, lemma_selection_step, names_distinct, system_index, GalaxyState,
};
use crate::models::{CreateSystemRequest, StarType, System, UpdateSystemRequest};

verus! {

/// Query of a system listing.
pub struct SystemFilter {
    pub star_type: Option<StarType>,
}

/// The system passes the star-type filter.
pub open spec fn star_filter_keeps(s: Seq<System>, star_type: Option<StarType>) -> spec_fn(int) -> bool {
    |i: int| star_type matches Some(t) ==> s[i].star_type == t
}

impl GalaxyState {
    /// Creates an empty system; refused when the name is taken.
    pub fn create_system(&mut self, req: CreateSystemRequest) -> (r: Result<(), SystemsError>)
        requires
            old(self).wf(),
        ensures
            final(self).wf(),
            r is Err <==> has_system(old(self).systems@, req.name@),
            r matches Err(e) ==> e == SystemsError::Conflict && final(self).systems@ == old(self).systems@,
            r is Ok ==> {
                let s = final(self).systems@;
                &&& s.len() == old(self).systems@.len() + 1
                &&& s.drop_last() == old(self).systems@
                &&& s.last().name == req.name
                &&& s.last().coordinates == req.coordinates
                &&& s.last().star_type == req.star_type
                &&& s.last().planets@.len() == 0
            },
    {
        if self.find_system(&req.name).is_some() {
            return Err(SystemsError::Conflict);
        }
        let system = System {
            name: req.name,
            coordinates: req.coordinates,
            star_type: req.star_type,
            planets: Vec::new(),
        };
        let ghost before = self.systems@;
        self.systems.push(system);
        proof {
            assert(self.systems@.drop_last() =~= before);
            assert forall|i: int, j: int| 0 <= i < j < self.systems@.len() implies self.systems@[i].name@
                != self.systems@[j].name@ by {
                if j == before.len() {
                    assert(before[i].name@ != req.name@);
                }
            }
        }
        Ok(())
    }

    /// Positions of the systems, all of them or those of one star type.
    pub fn list_systems(&self, star_type: Option<StarType>) -> (r: Vec<usize>)
        ensures
            is_selection(r@, self.systems@.len() as int, star_filter_keeps(self.systems@, star_type)),
    {
        let ghost keep = star_filter_keeps(self.systems@, star_type);
        let n = self.systems.len();
        let mut out: Vec<usize> = Vec::new();
        let mut i: usize = 0;
        while i < n
            invariant
                n == self.systems@.len(),
                i <= n,
                keep == star_filter_keeps(self.systems@, star_type),
                is_selection(out@, i as int, keep),
            decreases n - i,
        {
            let kept = match star_type {
                Some(t) => self.systems[i].star_type == t,
                None => true,
            };
            proof {
                assert(kept == keep(i as int));
                lemma_selection_step(out@, i as int, keep);
            }
            if kept {
                out.push(i);
            }
            i = i + 1;
        }
        out
    }

    /// The system called `name`.
    pub fn get_system(&self, name: &String) -> (r: Result<&System, SystemsError>)
        requires
            self.wf(),
        ensures
            r is Err <==> !has_system(self.systems@, name@),
            r matches Err(e) ==> e == SystemsError::NotFound,
            r matches Ok(s) ==> *s == self.systems@[system_index(self.systems@, name@)],
    {
        match self.find_system(name) {
            Some(i) => Ok(&self.systems[i]),
            None => Err(SystemsError::NotFound),
        }
    }

    /// Renames and redescribes a system.  Renaming onto another existing
    /// system's name is a conflict, checked before the system is looked up.
    pub fn update_system(&mut self, name: &String, req: UpdateSystemRequest) -> (r: Result<(), SystemsError>)
        requires
            old(self).wf(),
        ensures
            final(self).wf(),
            r matches Err(e) ==> final(self).systems@ == old(self).systems@,
            (r == Err::<(), SystemsError>(SystemsError::Conflict)) <==> (req.name matches Some(n) && n@
                != name@ && has_system(old(self).systems@, n@)),
            (r == Err::<(), SystemsError>(SystemsError::NotFound)) <==> (!(req.name matches Some(n) && n@
                != name@ && has_system(old(self).systems@, n@)) && !has_system(
                old(self).systems@,
                name@,
            )),
            r is Ok ==> {
                let i = system_index(old(self).systems@, name@);
                let o = old(self).systems@[i];
                let s = final(self).systems@[i];
                &&& final(self).systems@.len() == old(self).systems@.len()
                &&& forall|k: int| 0 <= k < old(self).systems@.len() && k != i ==> final(self).systems@[k] == old(self).systems@[k]
                &&& s.name == (match req.name { Some(n) => n, None => o.name })
                &&& s.coordinates == (match req.coordinates { Some(c) => c, None => o.coordinates })
                &&& s.star_type == (match req.star_type { Some(t) => t, None => o.star_type })
                &&& s.planets == o.planets
            },
    {
        if let Some(new_name) = &req.name {
            if *new_name != *name && self.find_system(new_name).is_some() {
                return Err(SystemsError::Conflict);
            }
        }
        let i = match self.find_system(name) {
            Some(i) => i,
            None => return Err(SystemsError::NotFound),
        };
        let ghost before = self.systems@;
        let system: &mut System = &mut self.systems[i];
        if let Some(new_name) = req.name {
            system.name = new_name;
        }
        if let Some(c) = req.coordinates {
            system.coordinates = c;
        }
        if let Some(t) = req.star_type {
            system.star_type = t;
        }
        proof {
            assert forall|a: int, b: int| 0 <= a < b < self.systems@.len() implies self.systems@[a].name@
                != self.systems@[b].name@ by {
                if a != i && b != i {
                    assert(before[a].name@ != before[b].name@);
                } else if a == i {
                    assert(before[b].name@ != before[a].name@);
                } else {
                    assert(before[a].name@ != before[b].name@);
                }
            }
        }
        Ok(())
    }

    /// Removes the system called `name`.
    pub fn delete_system(&mut self, name: &String) -> (r: Result<(), SystemsError>)
        requires
            old(self).wf(),
        ensures
            final(self).wf(),
            r is Err <==> !has_system(old(self).systems@, name@),
            r matches Err(e) ==> e == SystemsError::NotFound && final(self).systems@ == old(self).systems@,
            r is Ok ==> final(self).systems@ == old(self).systems@.remove(
                system_index(old(self).systems@, name@),
            ),
            r is Ok ==> !has_system(final(self).systems@, name@),
    {
        match self.find_system(name) {
            Some(i) => {
                let ghost before = self.systems@;
                let _ = self.systems.remove(i);
                proof {
                    assert forall|a: int, b: int| 0 <= a < b < self.systems@.len() implies self.systems@[a].name@
                        != self.systems@[b].name@ by {
                        let a0 = if a < i { a } else { a + 1 };
                        let b0 = if b < i { b } else { b + 1 };
                        assert(before[a0].name@ != before[b0].name@);
                    }
                    assert forall|k: int| 0 <= k < self.systems@.len() implies #[trigger] self.systems@[k].name@ != name@ by {
                        let k0 = if k < i { k } else { k + 1 };
                        assert(before[k0].name@ != before[i as int].name@);
                    }
                }
                Ok(())
            },
            None => Err(SystemsError::NotFound),
        }
    }
}

} // verus!
