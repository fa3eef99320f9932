//! The states a cargo ship goes through, and the station checks around them.
use vstd::prelude::*;

use crate::error::{AppError, ShipError};
use crate::galaxy::{any_planet, loc_ok, planet_at, GalaxyState};
use crate::inventory::{addition_fits, after_addition, after_deduction, covers, Inventory};
use crate::models::{Planet, PlanetStatus, Ship, ShipStatus, ShipWebhookPayload, System};

verus! {

/// A planet with id `id` whose station `owner` owns.
pub open spec fn station_of(id: Seq<char>, owner: Seq<char>) -> spec_fn(Planet) -> bool {
    |p: Planet| p.id@ == id && (p.status matches PlanetStatus::Connected { station, .. } && station.owner_id@ == owner)
}

/// Only the status and the times of the ship changed.
pub open spec fn ship_same_but_progress(a: Ship, b: Ship) -> bool {
    &&& b.id == a.id
    &&& b.owner_id == a.owner_id
    &&& b.origin_planet_id == a.origin_planet_id
    &&& b.destination_planet_id == a.destination_planet_id
    &&& b.cargo == a.cargo
    &&& b.trade_id == a.trade_id
    &&& b.trucking_id == a.trucking_id
    &&& b.fee == a.fee
    &&& b.created_at == a.created_at
}

/// The ship after checking, at `now`, whether its loading or unloading is over.
pub open spec fn polled(s: Ship, now: u64) -> Ship {
    if (s.status == ShipStatus::Loading || s.status == ShipStatus::Unloading) && (s.operation_complete_at matches Some(t) && now >= t) {
        Ship { status: ShipStatus::AwaitingUndockingAuth, ..s }
    } else {
        s
    }
}

/// The ship after arriving at `now`.
pub open spec fn arrived(s: Ship, now: u64) -> Ship {
    Ship { status: ShipStatus::AwaitingDockingAuth, arrival_at: Some(now), ..s }
}

/// The ship after docking, unloading until `complete_at`.
pub open spec fn docked(s: Ship, complete_at: u64) -> Ship {
    Ship { status: ShipStatus::Unloading, operation_complete_at: Some(complete_at), ..s }
}

/// The ship after undocking at `now`: its journey is complete.
pub open spec fn undocked(s: Ship, now: u64) -> Ship {
    Ship { status: ShipStatus::Complete, ..polled(s, now) }
}

/// Planet `old` after its station received `cargo`.
pub open spec fn station_received(old: Planet, new: Planet, cargo: Map<Seq<char>, u64>) -> bool {
    &&& new.id == old.id
    &&& new.name == old.name
    &&& new.position == old.position
    &&& new.distance_ua_bits == old.distance_ua_bits
    &&& new.planet_type == old.planet_type
    &&& match old.status {
        PlanetStatus::Connected { settlement: s0, station: t0, space_elevator: e0 } => match new.status {
            PlanetStatus::Connected { settlement, station, space_elevator } => {
                &&& settlement == s0
                &&& space_elevator == e0
                &&& station.name == t0.name
                &&& station.owner_id == t0.owner_id
                &&& station.mass_driver == t0.mass_driver
                &&& station.docking_bays == t0.docking_bays
                &&& station.max_storage == t0.max_storage
                &&& station.inventory@ == after_addition(t0.inventory@, cargo)
            },
            _ => false,
        },
        _ => false,
    }
}

/// Same system, apart maybe from the contents of its planets.
pub open spec fn same_shape(a: System, b: System) -> bool {
    &&& a.name == b.name
    &&& a.coordinates == b.coordinates
    &&& a.star_type == b.star_type
    &&& a.planets@.len() == b.planets@.len()
}

/// Every connected planet with id `id` had its station receive `cargo`;
/// every other planet is unchanged.
pub open spec fn delivered_to_all(old: Seq<System>, new: Seq<System>, id: Seq<char>, cargo: Map<Seq<char>, u64>) -> bool {
    &&& new.len() == old.len()
    &&& forall|i: int| 0 <= i < old.len() ==> same_shape(#[trigger] new[i], old[i])
    &&& forall|i: int, j: int| #[trigger] loc_ok(old, i, j) ==> if planet_at(old, i, j).id@ == id && planet_at(old, i, j).status is Connected {
        station_received(planet_at(old, i, j), planet_at(new, i, j), cargo)
    } else {
        planet_at(new, i, j) == planet_at(old, i, j)
    }
}

/// Planet `old` after its station gave away `cargo`.
pub open spec fn station_gave(old: Planet, new: Planet, cargo: Map<Seq<char>, u64>) -> bool {
    &&& new.id == old.id
    &&& new.name == old.name
    &&& new.position == old.position
    &&& new.distance_ua_bits == old.distance_ua_bits
    &&& new.planet_type == old.planet_type
    &&& match old.status {
        PlanetStatus::Connected { settlement: s0, station: t0, space_elevator: e0 } => match new.status {
            PlanetStatus::Connected { settlement, station, space_elevator } => {
                &&& settlement == s0
                &&& space_elevator == e0
                &&& station.name == t0.name
                &&& station.owner_id == t0.owner_id
                &&& station.mass_driver == t0.mass_driver
                &&& station.docking_bays == t0.docking_bays
                &&& station.max_storage == t0.max_storage
                &&& station.inventory@ == after_deduction(t0.inventory@, cargo)
            },
            _ => false,
        },
        _ => false,
    }
}

/// Every planet with id `id` has a station holding at least `cargo`.
pub open spec fn stock_covers_all(s: Seq<System>, id: Seq<char>, cargo: Map<Seq<char>, u64>) -> bool {
    forall|i: int, j: int| #[trigger] loc_ok(s, i, j) && planet_at(s, i, j).id@ == id ==> (planet_at(s, i, j).status matches PlanetStatus::Connected { station, .. } && covers(station.inventory@, cargo))
}

/// The station of every planet with id `id` gave away `cargo`; every other
/// planet is unchanged.
pub open spec fn taken_from_all(old: Seq<System>, new: Seq<System>, id: Seq<char>, cargo: Map<Seq<char>, u64>) -> bool {
    &&& new.len() == old.len()
    &&& forall|i: int| 0 <= i < old.len() ==> same_shape(#[trigger] new[i], old[i])
    &&& forall|i: int, j: int| #[trigger] loc_ok(old, i, j) ==> if planet_at(old, i, j).id@ == id {
        station_gave(planet_at(old, i, j), planet_at(new, i, j), cargo)
    } else {
        planet_at(new, i, j) == planet_at(old, i, j)
    }
}

/// Every station on a connected planet with id `id` can take `cargo`
/// without a quantity overflowing.
pub open spec fn delivery_fits(s: Seq<System>, id: Seq<char>, cargo: Map<Seq<char>, u64>) -> bool {
    forall|i: int, j: int| #[trigger] loc_ok(s, i, j) && planet_at(s, i, j).id@ == id ==> match planet_at(s, i, j).status {
        PlanetStatus::Connected { station, .. } => addition_fits(station.inventory@, cargo),
        _ => true,
    }
}

/// The transit of the ship ends at `now`: a ship still in transit now awaits
/// docking authorization (and its destination's owner should be asked);
/// any other ship is left alone.  Answers whether the ship arrived.
pub fn ship_arrives(ship: &mut Ship, now: u64) -> (came: bool)
    ensures
        came == (old(ship).status == ShipStatus::InTransit),
        came ==> *final(ship) == arrived(*old(ship), now),
        !came ==> *final(ship) == *old(ship),
{
    if ship.status != ShipStatus::InTransit {
        return false;
    }
    ship.status = ShipStatus::AwaitingDockingAuth;
    ship.arrival_at = Some(now);
    true
}

/// The request sent to the destination's owner when the ship arrives.
pub fn docking_request_for(ship: &Ship) -> (r: ShipWebhookPayload)
    ensures
        r matches ShipWebhookPayload::DockingRequest { ship_id, origin_planet_id, cargo } && ship_id == ship.id
            && origin_planet_id == ship.origin_planet_id && cargo@ == ship.cargo@,
{
    let pairs = ship.cargo.to_vec();
    ShipWebhookPayload::DockingRequest {
        ship_id: ship.id,
        origin_planet_id: ship.origin_planet_id.clone(),
        cargo: Inventory::from_pairs(&pairs),
    }
}

/// Whether a notification goes out to `callback_url`: only to a non-empty one.
pub fn webhook_wanted(callback_url: &String) -> (r: bool)
    ensures
        r == (callback_url@.len() > 0),
{
    !callback_url.as_str().is_empty()
}

/// A loading or unloading whose completion time has passed is over: the
/// ship then awaits undocking authorization.
pub fn poll_operation(ship: &mut Ship, now: u64)
    ensures
        *final(ship) == polled(*old(ship), now),
{
    if ship.status == ShipStatus::Loading || ship.status == ShipStatus::Unloading {
        if let Some(complete_at) = ship.operation_complete_at {
            if now >= complete_at {
                ship.status = ShipStatus::AwaitingUndockingAuth;
            }
        }
    }
}

impl GalaxyState {
    /// Whether `owner_id` owns the station of some planet with id `planet_id`.
    pub fn owns_station_at(&self, planet_id: &String, owner_id: &String) -> (r: bool)
        ensures
            r == any_planet(self.systems@, station_of(planet_id@, owner_id@)),
    {
        let ghost s = self.systems@;
        let ghost p = station_of(planet_id@, owner_id@);
        let n = self.systems.len();
        let mut i: usize = 0;
        while i < n
            invariant
                n == s.len(),
                s == self.systems@,
                i <= n,
                p == station_of(planet_id@, owner_id@),
                forall|i2: int, j2: int| loc_ok(s, i2, j2) && i2 < i ==> !p(#[trigger] planet_at(s, i2, j2)),
            decreases n - i,
        {
            let planets = &self.systems[i].planets;
            let m = planets.len();
            let mut j: usize = 0;
            while j < m
                invariant
                    n == s.len(),
                    s == self.systems@,
                    i < n,
                    m == s[i as int].planets@.len(),
                    planets@ == s[i as int].planets@,
                    j <= m,
                    p == station_of(planet_id@, owner_id@),
                    forall|i2: int, j2: int| loc_ok(s, i2, j2) && (i2 < i || (i2 == i && j2 < j)) ==> !p(#[trigger] planet_at(s, i2, j2)),
                decreases m - j,
            {
                let hit = planets[j].id == *planet_id && match &planets[j].status {
                    PlanetStatus::Connected { station, .. } => station.owner_id == *owner_id,
                    _ => false,
                };
                proof {
                    assert(hit == p(planet_at(s, i as int, j as int)));
                }
                if hit {
                    return true;
                }
                j = j + 1;
            }
            i = i + 1;
        }
        proof {
            assert forall|i2: int, j2: int| loc_ok(s, i2, j2) implies !p(#[trigger] planet_at(s, i2, j2)) by {}
        }
        false
    }

    /// Whether delivering `cargo` to the stations with id `planet_id` fits.
    pub fn delivery_fits(&self, planet_id: &String, cargo: &Inventory) -> (r: bool)
        ensures
            r == delivery_fits(self.systems@, planet_id@, cargo@),
    {
        let ghost s = self.systems@;
        let n = self.systems.len();
        let mut i: usize = 0;
        while i < n
            invariant
                n == s.len(),
                s == self.systems@,
                i <= n,
                forall|i2: int, j2: int| #[trigger] loc_ok(s, i2, j2) && i2 < i && planet_at(s, i2, j2).id@ == planet_id@ ==> match planet_at(s, i2, j2).status {
                    PlanetStatus::Connected { station, .. } => addition_fits(station.inventory@, cargo@),
                    _ => true,
                },
            decreases n - i,
        {
            let planets = &self.systems[i].planets;
            let m = planets.len();
            let mut j: usize = 0;
            while j < m
                invariant
                    n == s.len(),
                    s == self.systems@,
                    i < n,
                    m == s[i as int].planets@.len(),
                    planets@ == s[i as int].planets@,
                    j <= m,
                    forall|i2: int, j2: int| #[trigger] loc_ok(s, i2, j2) && (i2 < i || (i2 == i && j2 < j)) && planet_at(s, i2, j2).id@ == planet_id@ ==> match planet_at(s, i2, j2).status {
                        PlanetStatus::Connected { station, .. } => addition_fits(station.inventory@, cargo@),
                        _ => true,
                    },
                decreases m - j,
            {
                if planets[j].id == *planet_id {
                    if let PlanetStatus::Connected { station, .. } = &planets[j].status {
                        if !station.inventory.addition_fits(cargo) {
                            proof {
                                assert(loc_ok(s, i as int, j as int));
                            }
                            return false;
                        }
                    }
                }
                j = j + 1;
            }
            i = i + 1;
        }
        true
    }

    /// Adds `cargo` to the station of every connected planet with id `planet_id`.
    pub fn deliver_to_all(&mut self, planet_id: &String, cargo: &Inventory)
        requires
            old(self).wf(),
            delivery_fits(old(self).systems@, planet_id@, cargo@),
        ensures
            final(self).wf(),
            delivered_to_all(old(self).systems@, final(self).systems@, planet_id@, cargo@),
    {
        let ghost s = self.systems@;
        let n = self.systems.len();
        let mut i: usize = 0;
        while i < n
            invariant
                n == s.len(),
                n == self.systems@.len(),
                i <= n,
                crate::galaxy::names_distinct(s),
                delivery_fits(s, planet_id@, cargo@),
                forall|k: int| 0 <= k < n ==> same_shape(#[trigger] self.systems@[k], s[k]),
                forall|i2: int, j2: int| #[trigger] loc_ok(s, i2, j2) ==> if i2 < i && planet_at(s, i2, j2).id@ == planet_id@ && planet_at(s, i2, j2).status is Connected {
                    station_received(planet_at(s, i2, j2), planet_at(self.systems@, i2, j2), cargo@)
                } else {
                    planet_at(self.systems@, i2, j2) == planet_at(s, i2, j2)
                },
            decreases n - i,
        {
            let m = self.systems[i].planets.len();
            let mut j: usize = 0;
            while j < m
                invariant
                    n == s.len(),
                    n == self.systems@.len(),
                    i < n,
                    m == s[i as int].planets@.len(),
                    j <= m,
                    delivery_fits(s, planet_id@, cargo@),
                    forall|k: int| 0 <= k < n ==> same_shape(#[trigger] self.systems@[k], s[k]),
                    forall|i2: int, j2: int| #[trigger] loc_ok(s, i2, j2) ==> if (i2 < i || (i2 == i && j2 < j)) && planet_at(s, i2, j2).id@ == planet_id@ && planet_at(s, i2, j2).status is Connected {
                        station_received(planet_at(s, i2, j2), planet_at(self.systems@, i2, j2), cargo@)
                    } else {
                        planet_at(self.systems@, i2, j2) == planet_at(s, i2, j2)
                    },
                decreases m - j,
            {
                proof {
                    assert(loc_ok(s, i as int, j as int));
                    assert(planet_at(self.systems@, i as int, j as int) == planet_at(s, i as int, j as int));
                }
                let ghost mid = self.systems@;
                if self.systems[i].planets[j].id == *planet_id {
                    let planet = &mut self.systems[i].planets[j];
                    match &mut planet.status {
                        PlanetStatus::Connected { station, .. } => {
                            station.inventory.add_all(cargo);
                        },
                        _ => {},
                    }
                }
                proof {
                    assert(same_shape(self.systems@[i as int], mid[i as int]));
                    assert forall|k: int| 0 <= k < n && k != i implies self.systems@[k] == mid[k] by {}
                    assert forall|i2: int, j2: int| #[trigger] loc_ok(s, i2, j2) && !(i2 == i && j2 == j) implies planet_at(self.systems@, i2, j2) == planet_at(mid, i2, j2) by {}
                }
                j = j + 1;
            }
            i = i + 1;
        }
        proof {
            assert forall|a: int, b: int| 0 <= a < b < self.systems@.len() implies self.systems@[a].name@ != self.systems@[b].name@ by {
                assert(s[a].name@ != s[b].name@);
            }
        }
    }

    /// Takes `cargo` out of the station of every planet with id `planet_id`.
    pub fn take_from_all(&mut self, planet_id: &String, cargo: &Inventory)
        requires
            old(self).wf(),
            stock_covers_all(old(self).systems@, planet_id@, cargo@),
        ensures
            final(self).wf(),
            taken_from_all(old(self).systems@, final(self).systems@, planet_id@, cargo@),
    {
        let ghost s = self.systems@;
        let n = self.systems.len();
        let mut i: usize = 0;
        while i < n
            invariant
                n == s.len(),
                n == self.systems@.len(),
                i <= n,
                crate::galaxy::names_distinct(s),
                stock_covers_all(s, planet_id@, cargo@),
                forall|k: int| 0 <= k < n ==> same_shape(#[trigger] self.systems@[k], s[k]),
                forall|i2: int, j2: int| #[trigger] loc_ok(s, i2, j2) ==> if i2 < i && planet_at(s, i2, j2).id@ == planet_id@ {
                    station_gave(planet_at(s, i2, j2), planet_at(self.systems@, i2, j2), cargo@)
                } else {
                    planet_at(self.systems@, i2, j2) == planet_at(s, i2, j2)
                },
            decreases n - i,
        {
            let m = self.systems[i].planets.len();
            let mut j: usize = 0;
            while j < m
                invariant
                    n == s.len(),
                    n == self.systems@.len(),
                    i < n,
                    m == s[i as int].planets@.len(),
                    j <= m,
                    stock_covers_all(s, planet_id@, cargo@),
                    forall|k: int| 0 <= k < n ==> same_shape(#[trigger] self.systems@[k], s[k]),
                    forall|i2: int, j2: int| #[trigger] loc_ok(s, i2, j2) ==> if (i2 < i || (i2 == i && j2 < j)) && planet_at(s, i2, j2).id@ == planet_id@ {
                        station_gave(planet_at(s, i2, j2), planet_at(self.systems@, i2, j2), cargo@)
                    } else {
                        planet_at(self.systems@, i2, j2) == planet_at(s, i2, j2)
                    },
                decreases m - j,
            {
                proof {
                    assert(loc_ok(s, i as int, j as int));
                    assert(planet_at(self.systems@, i as int, j as int) == planet_at(s, i as int, j as int));
                }
                let ghost mid = self.systems@;
                if self.systems[i].planets[j].id == *planet_id {
                    let planet = &mut self.systems[i].planets[j];
                    match &mut planet.status {
                        PlanetStatus::Connected { station, .. } => {
                            station.inventory.deduct_all(cargo);
                        },
                        _ => {},
                    }
                }
                proof {
                    assert(same_shape(self.systems@[i as int], mid[i as int]));
                    assert forall|k: int| 0 <= k < n && k != i implies self.systems@[k] == mid[k] by {}
                    assert forall|i2: int, j2: int| #[trigger] loc_ok(s, i2, j2) && !(i2 == i && j2 == j) implies planet_at(self.systems@, i2, j2) == planet_at(mid, i2, j2) by {}
                }
                j = j + 1;
            }
            i = i + 1;
        }
        proof {
            assert forall|a: int, b: int| 0 <= a < b < self.systems@.len() implies self.systems@[a].name@ != self.systems@[b].name@ by {
                assert(s[a].name@ != s[b].name@);
            }
        }
    }
}

/// An undocking of `ship` by `owner` at `now` goes through: it is
/// authorized, the player owns a station with the destination's id, and the
/// ship, once polled, awaits undocking.
pub open spec fn undock_allowed(s: Seq<System>, ship: Ship, owner: Seq<char>, authorized: bool, now: u64) -> bool {
    &&& authorized
    &&& any_planet(s, station_of(ship.destination_planet_id@, owner))
    &&& polled(ship, now).status == ShipStatus::AwaitingUndockingAuth
}

/// Docks a ship at its destination: the request must be authorized, the
/// player must own a station with the destination's id, and the ship must be
/// awaiting docking; it then unloads until `complete_at`.
pub fn dock_ship(galaxy: &GalaxyState, ship: &mut Ship, owner_id: &String, authorized: bool, complete_at: u64) -> (r: Result<(), AppError>)
    ensures
        !authorized ==> r matches Err(AppError::Ship(ShipError::InvalidShipState)),
        authorized && !any_planet(galaxy.systems@, station_of(old(ship).destination_planet_id@, owner_id@))
            ==> r matches Err(AppError::Ship(ShipError::NotStationOwner)),
        authorized && any_planet(galaxy.systems@, station_of(old(ship).destination_planet_id@, owner_id@))
            && old(ship).status != ShipStatus::AwaitingDockingAuth ==> r matches Err(AppError::Ship(ShipError::InvalidShipState)),
        r is Err ==> *final(ship) == *old(ship),
        r is Ok <==> authorized && any_planet(galaxy.systems@, station_of(old(ship).destination_planet_id@, owner_id@))
            && old(ship).status == ShipStatus::AwaitingDockingAuth,
        r is Ok ==> *final(ship) == docked(*old(ship), complete_at),
{
    if !authorized {
        return Err(AppError::Ship(ShipError::InvalidShipState));
    }
    if !galaxy.owns_station_at(&ship.destination_planet_id, owner_id) {
        return Err(AppError::Ship(ShipError::NotStationOwner));
    }
    if ship.status != ShipStatus::AwaitingDockingAuth {
        return Err(AppError::Ship(ShipError::InvalidShipState));
    }
    ship.status = ShipStatus::Unloading;
    ship.operation_complete_at = Some(complete_at);
    Ok(())
}

/// Undocks a ship from its destination at `now`: the request must be
/// authorized, the player must own a station with the destination's id, and
/// the ship, once its unloading is polled, must await undocking.  The ship
/// completes and its cargo goes to every station with the destination's id.
pub fn undock_ship(galaxy: &mut GalaxyState, ship: &mut Ship, owner_id: &String, authorized: bool, now: u64) -> (r: Result<(), AppError>)
    requires
        old(galaxy).wf(),
        undock_allowed(old(galaxy).systems@, *old(ship), owner_id@, authorized, now)
            ==> delivery_fits(old(galaxy).systems@, old(ship).destination_planet_id@, old(ship).cargo@),
    ensures
        final(galaxy).wf(),
        r is Err ==> *final(ship) == *old(ship),
        !authorized ==> r matches Err(AppError::Ship(ShipError::InvalidShipState)),
        authorized && !any_planet(old(galaxy).systems@, station_of(old(ship).destination_planet_id@, owner_id@))
            ==> r matches Err(AppError::Ship(ShipError::NotStationOwner)),
        r is Ok <==> authorized && any_planet(old(galaxy).systems@, station_of(old(ship).destination_planet_id@, owner_id@))
            && polled(*old(ship), now).status == ShipStatus::AwaitingUndockingAuth,
        authorized && any_planet(old(galaxy).systems@, station_of(old(ship).destination_planet_id@, owner_id@))
            && polled(*old(ship), now).status != ShipStatus::AwaitingUndockingAuth ==> (r matches Err(AppError::Ship(ShipError::InvalidShipState)))
            && *final(ship) == polled(*old(ship), now) && final(galaxy).systems@ == old(galaxy).systems@,
        r is Err && !(authorized && any_planet(old(galaxy).systems@, station_of(old(ship).destination_planet_id@, owner_id@)))
            ==> *final(ship) == *old(ship) && final(galaxy).systems@ == old(galaxy).systems@,
        r is Ok ==> *final(ship) == undocked(*old(ship), now),
        r is Ok ==> delivered_to_all(old(galaxy).systems@, final(galaxy).systems@, old(ship).destination_planet_id@, old(ship).cargo@),
{
    if !authorized {
        return Err(AppError::Ship(ShipError::InvalidShipState));
    }
    if !galaxy.owns_station_at(&ship.destination_planet_id, owner_id) {
        return Err(AppError::Ship(ShipError::NotStationOwner));
    }
    poll_operation(ship, now);
    if ship.status != ShipStatus::AwaitingUndockingAuth {
        return Err(AppError::Ship(ShipError::InvalidShipState));
    }
    ship.status = ShipStatus::Complete;
    galaxy.deliver_to_all(&ship.destination_planet_id, &ship.cargo);
    Ok(())
}

} // verus!
