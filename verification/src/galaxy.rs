//! The galaxy: star systems, their planets, and the searches over them.
use vstd::prelude::*;

use crate::models::{Planet, PlanetStatus, System};

verus! {

/// All star systems of the game, at most one per name.
pub struct GalaxyState {
    pub systems: Vec<System>,
}

/// No two systems share a name.
pub open spec fn names_distinct(s: Seq<System>) -> bool {
    forall|i: int, j: int| 0 <= i < j < s.len() ==> s[i].name@ != s[j].name@
}

/// Some system is called `name`.
pub open spec fn has_system(s: Seq<System>, name: Seq<char>) -> bool {
    exists|i: int| 0 <= i < s.len() && #[trigger] s[i].name@ == name
}

/// Position of the system called `name` (meaningful when it exists).
pub open spec fn system_index(s: Seq<System>, name: Seq<char>) -> int {
    choose|i: int| 0 <= i < s.len() && #[trigger] s[i].name@ == name
}

/// Some planet of the list has id `id`.
pub open spec fn has_planet(ps: Seq<Planet>, id: Seq<char>) -> bool {
    exists|j: int| 0 <= j < ps.len() && #[trigger] ps[j].id@ == id
}

/// `j` is the first position of a planet with id `id`.
pub open spec fn is_first_planet(ps: Seq<Planet>, id: Seq<char>, j: int) -> bool {
    &&& 0 <= j < ps.len()
    &&& ps[j].id@ == id
    &&& forall|k: int| 0 <= k < j ==> #[trigger] ps[k].id@ != id
}

/// First position of a planet with id `id` (meaningful when one exists).
pub open spec fn planet_index(ps: Seq<Planet>, id: Seq<char>) -> int {
    choose|j: int| is_first_planet(ps, id, j)
}

/// (i, j) names planet j of system i.
pub open spec fn loc_ok(s: Seq<System>, i: int, j: int) -> bool {
    0 <= i < s.len() && 0 <= j < s[i].planets@.len()
}

pub open spec fn planet_at(s: Seq<System>, i: int, j: int) -> Planet {
    s[i].planets@[j]
}

/// Order in which the galaxy's planets are visited: system by system.
pub open spec fn visited_before(i1: int, j1: int, i2: int, j2: int) -> bool {
    i1 < i2 || (i1 == i2 && j1 < j2)
}

/// Some planet of the galaxy satisfies `p`.
pub open spec fn any_planet(s: Seq<System>, p: spec_fn(Planet) -> bool) -> bool {
    exists|i: int, j: int| loc_ok(s, i, j) && #[trigger] p(planet_at(s, i, j))
}

/// (i, j) is the first planet in visiting order that satisfies `p`.
pub open spec fn is_first_where(s: Seq<System>, p: spec_fn(Planet) -> bool, i: int, j: int) -> bool {
    &&& loc_ok(s, i, j)
    &&& p(planet_at(s, i, j))
    &&& forall|i2: int, j2: int|
        loc_ok(s, i2, j2) && visited_before(i2, j2, i, j) ==> !p(#[trigger] planet_at(s, i2, j2))
}

/// (i, j) is the last planet in visiting order that satisfies `p`.
pub open spec fn is_last_where(s: Seq<System>, p: spec_fn(Planet) -> bool, i: int, j: int) -> bool {
    &&& loc_ok(s, i, j)
    &&& p(planet_at(s, i, j))
    &&& forall|i2: int, j2: int|
        loc_ok(s, i2, j2) && visited_before(i, j, i2, j2) ==> !p(#[trigger] planet_at(s, i2, j2))
}

/// Location of the first planet in visiting order that satisfies `p`
/// (meaningful when one does).
pub open spec fn first_loc(s: Seq<System>, p: spec_fn(Planet) -> bool) -> (int, int) {
    choose|l: (int, int)| is_first_where(s, p, l.0, l.1)
}

/// The first planet in visiting order that satisfies `p` (meaningful when one does).
pub open spec fn first_where(s: Seq<System>, p: spec_fn(Planet) -> bool) -> Planet {
    planet_at(s, first_loc(s, p).0, first_loc(s, p).1)
}

/// The last planet in visiting order that satisfies `p` (meaningful when one does).
pub open spec fn last_where(s: Seq<System>, p: spec_fn(Planet) -> bool) -> Planet {
    let l = choose|l: (int, int)| is_last_where(s, p, l.0, l.1);
    planet_at(s, l.0, l.1)
}

/// The planet has id `id`.
pub open spec fn id_is(id: Seq<char>) -> spec_fn(Planet) -> bool {
    |p: Planet| p.id@ == id
}

/// The planet has id `id` and a station.
pub open spec fn connected_id_is(id: Seq<char>) -> spec_fn(Planet) -> bool {
    |p: Planet| p.id@ == id && p.status is Connected
}

pub proof fn lemma_first_where_unique(s: Seq<System>, p: spec_fn(Planet) -> bool, i: int, j: int)
    requires
        is_first_where(s, p, i, j),
    ensures
        first_loc(s, p) == (i, j),
        first_where(s, p) == planet_at(s, i, j),
        any_planet(s, p),
{
    let w = (i, j);
    assert(is_first_where(s, p, w.0, w.1));
    let l = choose|l: (int, int)| is_first_where(s, p, l.0, l.1);
    assert(is_first_where(s, p, l.0, l.1));
    if visited_before(l.0, l.1, i, j) {
        assert(!p(planet_at(s, l.0, l.1)));
    } else if visited_before(i, j, l.0, l.1) {
        assert(!p(planet_at(s, i, j)));
    }
}

pub proof fn lemma_last_where_unique(s: Seq<System>, p: spec_fn(Planet) -> bool, i: int, j: int)
    requires
        is_last_where(s, p, i, j),
    ensures
        last_where(s, p) == planet_at(s, i, j),
        any_planet(s, p),
{
    let w = (i, j);
    assert(is_last_where(s, p, w.0, w.1));
    let l = choose|l: (int, int)| is_last_where(s, p, l.0, l.1);
    assert(is_last_where(s, p, l.0, l.1));
    if visited_before(l.0, l.1, i, j) {
        assert(!p(planet_at(s, i, j)));
    } else if visited_before(i, j, l.0, l.1) {
        assert(!p(planet_at(s, l.0, l.1)));
    }
}

/// `new` is `old` with the planets of system `i` replaced by `planets`.
pub open spec fn planets_replaced(old: Seq<System>, new: Seq<System>, i: int, planets: Seq<Planet>) -> bool {
    &&& 0 <= i < old.len()
    &&& new.len() == old.len()
    &&& forall|k: int| 0 <= k < old.len() && k != i ==> new[k] == old[k]
    &&& new[i].name == old[i].name
    &&& new[i].coordinates == old[i].coordinates
    &&& new[i].star_type == old[i].star_type
    &&& new[i].planets@ == planets
}

/// `new` is `old` except for planet `j` of system `i`.
pub open spec fn one_planet_changed(old: Seq<System>, new: Seq<System>, i: int, j: int) -> bool {
    &&& planets_replaced(old, new, i, new[i].planets@)
    &&& 0 <= j < old[i].planets@.len()
    &&& new[i].planets@.len() == old[i].planets@.len()
    &&& forall|k: int| 0 <= k < old[i].planets@.len() && k != j ==> new[i].planets@[k] == old[i].planets@[k]
}

/// Only the status of the planet changed.
pub open spec fn only_status_changed(old: Planet, new: Planet) -> bool {
    &&& new.id == old.id
    &&& new.name == old.name
    &&& new.position == old.position
    &&& new.distance_ua_bits == old.distance_ua_bits
    &&& new.planet_type == old.planet_type
}

pub proof fn lemma_planets_replaced_wf(old: Seq<System>, new: Seq<System>, i: int, planets: Seq<Planet>)
    requires
        names_distinct(old),
        planets_replaced(old, new, i, planets),
    ensures
        names_distinct(new),
        forall|name: Seq<char>| has_system(old, name) ==> has_system(new, name) && system_index(new, name) == system_index(old, name),
{
    assert forall|a: int, b: int| 0 <= a < b < new.len() implies new[a].name@ != new[b].name@ by {
        assert(old[a].name@ != old[b].name@);
    }
    assert forall|name: Seq<char>| has_system(old, name) implies has_system(new, name) && system_index(new, name) == system_index(old, name) by {
        let k = system_index(old, name);
        assert(new[k].name@ == name);
        let k2 = system_index(new, name);
        if k2 != k {
            assert(new[k2].name@ != new[k].name@);
        }
    }
}

/// `r` lists, in increasing order, exactly the positions `i < n` with `keep(i)`.
pub open spec fn is_selection(r: Seq<usize>, n: int, keep: spec_fn(int) -> bool) -> bool {
    &&& forall|k: int| 0 <= k < r.len() ==> #[trigger] r[k] < n && keep(r[k] as int)
    &&& forall|k1: int, k2: int| 0 <= k1 < k2 < r.len() ==> #[trigger] r[k1] < #[trigger] r[k2]
    &&& forall|i: int| 0 <= i < n && #[trigger] keep(i) ==> r.contains(i as usize)
}

/// Extends a selection over `[0, n)` to `[0, n + 1)`.
pub proof fn lemma_selection_step(r: Seq<usize>, n: int, keep: spec_fn(int) -> bool)
    requires
        is_selection(r, n, keep),
        0 <= n < usize::MAX,
    ensures
        keep(n) ==> is_selection(r.push(n as usize), n + 1, keep),
        !keep(n) ==> is_selection(r, n + 1, keep),
{
    if keep(n) {
        let r2 = r.push(n as usize);
        assert forall|i: int| 0 <= i < n + 1 && #[trigger] keep(i) implies r2.contains(i as usize) by {
            if i == n {
                assert(r2[r.len() as int] == n as usize);
            } else {
                assert(r.contains(i as usize));
                let k = choose|k: int| 0 <= k < r.len() && r[k] == i as usize;
                assert(r2[k] == i as usize);
            }
        }
        assert forall|k1: int, k2: int| 0 <= k1 < k2 < r2.len() implies #[trigger] r2[k1] < #[trigger] r2[k2] by {
            if k2 == r.len() {
                assert(r[k1] < n);
            } else {
                assert(r[k1] < r[k2]);
            }
        }
        assert forall|k: int| 0 <= k < r2.len() implies #[trigger] r2[k] < n + 1 && keep(r2[k] as int) by {
            if k < r.len() {
                assert(r2[k] == r[k]);
            }
        }
    }
}

impl GalaxyState {
    /// Well-formedness: system names are distinct.
    pub open spec fn wf(&self) -> bool {
        names_distinct(self.systems@)
    }

    /// A galaxy without systems.
    pub fn new() -> (r: GalaxyState)
        ensures
            r.systems@.len() == 0,
            r.wf(),
    {
        GalaxyState { systems: Vec::new() }
    }

    /// The galaxy of `systems`, when no two of them share a name.
    pub fn from_systems(systems: Vec<System>) -> (r: Option<GalaxyState>)
        ensures
            r is Some <==> names_distinct(systems@),
            r matches Some(g) ==> g.systems@ == systems@ && g.wf(),
    {
        let n = systems.len();
        let mut i: usize = 0;
        while i < n
            invariant
                n == systems@.len(),
                i <= n,
                forall|a: int, b: int| 0 <= a < b < n && a < i ==> systems@[a].name@ != systems@[b].name@,
            decreases n - i,
        {
            let mut j: usize = i + 1;
            while j < n
                invariant
                    n == systems@.len(),
                    i < n,
                    i + 1 <= j <= n,
                    forall|a: int, b: int| 0 <= a < b < n && a < i ==> systems@[a].name@ != systems@[b].name@,
                    forall|b: int| i < b < j ==> systems@[i as int].name@ != systems@[b].name@,
                decreases n - j,
            {
                if systems[i].name == systems[j].name {
                    return None;
                }
                j = j + 1;
            }
            i = i + 1;
        }
        Some(GalaxyState { systems })
    }

    /// Position of the system called `name`.
    pub fn find_system(&self, name: &String) -> (r: Option<usize>)
        requires
            self.wf(),
        ensures
            r is None <==> !has_system(self.systems@, name@),
            r matches Some(i) ==> i < self.systems@.len() && self.systems@[i as int].name@ == name@
                && i == system_index(self.systems@, name@),
    {
        let n = self.systems.len();
        let mut i: usize = 0;
        while i < n
            invariant
                n == self.systems@.len(),
                i <= n,
                self.wf(),
                forall|k: int| 0 <= k < i ==> #[trigger] self.systems@[k].name@ != name@,
            decreases n - i,
        {
            if self.systems[i].name == *name {
                proof {
                    assert(has_system(self.systems@, name@));
                    let k = system_index(self.systems@, name@);
                    assert(self.systems@[k].name@ == name@);
                    if k != i {
                        assert(self.systems@[k].name@ != self.systems@[i as int].name@);
                    }
                }
                return Some(i);
            }
            i = i + 1;
        }
        None
    }
}

impl GalaxyState {
    /// Location of the first planet, in visiting order, with id `id` and,
    /// when `connected_only`, with a station.
    pub fn locate_first(&self, id: &String, connected_only: bool) -> (r: Option<(usize, usize)>)
        ensures
            ({
                let p = if connected_only { connected_id_is(id@) } else { id_is(id@) };
                &&& r is None <==> !any_planet(self.systems@, p)
                &&& r matches Some(l) ==> is_first_where(self.systems@, p, l.0 as int, l.1 as int)
                    && first_loc(self.systems@, p) == (l.0 as int, l.1 as int)
            }),
    {
        let ghost p = if connected_only { connected_id_is(id@) } else { id_is(id@) };
        let ghost s = self.systems@;
        let n = self.systems.len();
        let mut i: usize = 0;
        while i < n
            invariant
                n == s.len(),
                s == self.systems@,
                i <= n,
                p == (if connected_only { connected_id_is(id@) } else { id_is(id@) }),
                forall|i2: int, j2: int| loc_ok(s, i2, j2) && i2 < i ==> !p(#[trigger] planet_at(s, i2, j2)),
            decreases n - i,
        {
            let planets = &self.systems[i].planets;
            let m = planets.len();
            let mut j: usize = 0;
            while j < m
                invariant
                    n == s.len(),
                    s == self.systems@,
                    i < n,
                    m == s[i as int].planets@.len(),
                    planets@ == s[i as int].planets@,
                    j <= m,
                    p == (if connected_only { connected_id_is(id@) } else { id_is(id@) }),
                    forall|i2: int, j2: int| loc_ok(s, i2, j2) && (i2 < i || (i2 == i && j2 < j)) ==> !p(#[trigger] planet_at(s, i2, j2)),
                decreases m - j,
            {
                let hit = planets[j].id == *id && (!connected_only || match planets[j].status {
                    crate::models::PlanetStatus::Connected { .. } => true,
                    _ => false,
                });
                proof {
                    assert(hit == p(planet_at(s, i as int, j as int)));
                }
                if hit {
                    proof {
                        lemma_first_where_unique(s, p, i as int, j as int);
                    }
                    return Some((i, j));
                }
                j = j + 1;
            }
            i = i + 1;
        }
        proof {
            assert forall|i2: int, j2: int| loc_ok(s, i2, j2) implies !p(#[trigger] planet_at(s, i2, j2)) by {}
        }
        None
    }
}

/// Position of the first planet with id `id` in `planets`.
pub fn find_planet(planets: &Vec<Planet>, id: &String) -> (r: Option<usize>)
    ensures
        r is None <==> !has_planet(planets@, id@),
        r matches Some(j) ==> is_first_planet(planets@, id@, j as int) && j == planet_index(
            planets@,
            id@,
        ),
{
    let n = planets.len();
    let mut j: usize = 0;
    while j < n
        invariant
            n == planets@.len(),
            j <= n,
            forall|k: int| 0 <= k < j ==> #[trigger] planets@[k].id@ != id@,
        decreases n - j,
    {
        if planets[j].id == *id {
            proof {
                assert(is_first_planet(planets@, id@, j as int));
                let k = planet_index(planets@, id@);
                assert(is_first_planet(planets@, id@, k));
                if k < j {
                    assert(planets@[k].id@ != id@);
                } else if k > j {
                    assert(planets@[j as int].id@ != id@);
                }
            }
            return Some(j);
        }
        j = j + 1;
    }
    None
}

} // verus!
