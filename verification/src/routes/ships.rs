//! Ships of players: launch, list, read, dock, undock.
use vstd::prelude::*;

use crate::error::{AppError, ShipError};
use crate::galaxy::{
    any_planet, first_where, id_is, is_first_where, is_last_where, is_selection, last_where,
    lemma_first_where_unique, lemma_last_where_unique, lemma_selection_step, loc_ok, planet_at,
    visited_before, GalaxyState,
};
use crate::ids::{new_uuid, uuid_string, uuid_text};
use crate::inventory::{covers, qty_of};
use crate::models::{CreateShipRequest, Planet, PlanetStatus, Ship, ShipStatus, System};
use crate::ship_lifecycle::{
    delivery_fits, dock_ship, poll_operation, polled, stock_covers_all, taken_from_all, undock_allowed, undock_ship,
};
use crate::time::now_ms;

verus! {

/// What the launch of a ship needs from the galaxy besides the ship: the
/// distances (as `f64` bit patterns) of its origin and destination and the
/// owner of the destination station.
pub struct ShipDeparture {
    pub origin_distance_ua_bits: u64,
    pub destination_distance_ua_bits: u64,
    pub destination_owner_id: String,
}

/// A planet that stops a launch from `origin` to `dest` by `owner` with
/// `cargo`: an origin without a station owned by the player that holds the
/// cargo, or a destination without a station.
pub open spec fn departure_refused(origin: Seq<char>, dest: Seq<char>, owner: Seq<char>, cargo: Map<Seq<char>, u64>) -> spec_fn(Planet) -> bool {
    |p: Planet|
        (p.id@ == origin && !(p.status matches PlanetStatus::Connected { station, .. } && station.owner_id@ == owner
            && covers(station.inventory@, cargo))) || (p.id@ == dest && !(p.status is Connected))
}

/// The error a refused launch answers, decided by the first planet that
/// refuses it.
pub open spec fn departure_error_ok(p: Planet, e: AppError, origin: Seq<char>, dest: Seq<char>, owner: Seq<char>, cargo: Map<Seq<char>, u64>) -> bool {
    if p.id@ == origin {
        match p.status {
            PlanetStatus::Connected { station, .. } => if station.owner_id@ != owner {
                e matches AppError::Ship(ShipError::NotStationOwner)
            } else {
                e matches AppError::Ship(ShipError::InsufficientCargo { good_name, requested, available }) && cargo.contains_key(good_name@)
                    && requested == cargo[good_name@] && available == qty_of(station.inventory@, good_name@)
                    && available < requested
            },
            _ => e matches AppError::NotConnected(n) && n@ == origin,
        }
    } else {
        e matches AppError::NotConnected(n) && n@ == dest
    }
}

/// The error that refuses a launch of `req` by `owner` from galaxy `s`: the
/// same planet at both ends, then the first refusing planet in visiting
/// order, then a missing origin, then a missing destination.
pub open spec fn departure_refusal(s: Seq<System>, owner: Seq<char>, req: CreateShipRequest, e: AppError) -> bool {
    let o = req.origin_planet_id@;
    let d = req.destination_planet_id@;
    let refused = departure_refused(o, d, owner, req.cargo@);
    if o == d {
        e matches AppError::Ship(ShipError::SameStation)
    } else if any_planet(s, refused) {
        departure_error_ok(first_where(s, refused), e, o, d, owner, req.cargo@)
    } else if !any_planet(s, id_is(o)) {
        e matches AppError::PlanetNotFound(n) && n@ == o
    } else if !any_planet(s, id_is(d)) {
        e matches AppError::PlanetNotFound(n) && n@ == d
    } else {
        false
    }
}

/// The ship launched by `owner` under `id` at `now`, in transit.
pub open spec fn is_launched_ship(s: Ship, req: CreateShipRequest, owner: String, id: u128, now: u64) -> bool {
    &&& s.id == id
    &&& s.owner_id == owner
    &&& s.origin_planet_id == req.origin_planet_id
    &&& s.destination_planet_id == req.destination_planet_id
    &&& s.cargo == req.cargo
    &&& s.status == ShipStatus::InTransit
    &&& s.trade_id is None
    &&& s.trucking_id is None
    &&& s.fee is None
    &&& s.created_at == now
    &&& s.arrival_at is None
    &&& s.operation_complete_at is None
}

/// Position of the first ship with id `id`.
pub open spec fn is_first_ship(list: Seq<Ship>, id: u128, k: int) -> bool {
    &&& 0 <= k < list.len()
    &&& list[k].id == id
    &&& forall|m: int| 0 <= m < k ==> #[trigger] list[m].id != id
}

/// Text of a ship status, as the API spells it.
pub open spec fn status_text(s: ShipStatus) -> Seq<char> {
    match s {
        ShipStatus::InTransitToOrigin => "in_transit_to_origin"@,
        ShipStatus::AwaitingOriginDockingAuth => "awaiting_origin_docking_auth"@,
        ShipStatus::Loading => "loading"@,
        ShipStatus::AwaitingOriginUndockingAuth => "awaiting_origin_undocking_auth"@,
        ShipStatus::InTransit => "in_transit"@,
        ShipStatus::AwaitingDockingAuth => "awaiting_docking_auth"@,
        ShipStatus::Unloading => "unloading"@,
        ShipStatus::AwaitingUndockingAuth => "awaiting_undocking_auth"@,
        ShipStatus::Complete => "complete"@,
    }
}

/// The ship passes the filters of a ship listing.
pub open spec fn ship_query_keeps(list: Seq<Ship>, player_id: Option<String>, status: Option<String>) -> spec_fn(int) -> bool {
    |k: int|
        (player_id matches Some(pid) ==> list[k].owner_id@ == pid@) && (status matches Some(st) ==> status_text(list[k].status) == st@)
}

/// Text of a ship status, as the API spells it.
pub fn status_name(s: ShipStatus) -> (r: String)
    ensures
        r@ == status_text(s),
{
    match s {
        ShipStatus::InTransitToOrigin => "in_transit_to_origin".to_owned(),
        ShipStatus::AwaitingOriginDockingAuth => "awaiting_origin_docking_auth".to_owned(),
        ShipStatus::Loading => "loading".to_owned(),
        ShipStatus::AwaitingOriginUndockingAuth => "awaiting_origin_undocking_auth".to_owned(),
        ShipStatus::InTransit => "in_transit".to_owned(),
        ShipStatus::AwaitingDockingAuth => "awaiting_docking_auth".to_owned(),
        ShipStatus::Unloading => "unloading".to_owned(),
        ShipStatus::AwaitingUndockingAuth => "awaiting_undocking_auth".to_owned(),
        ShipStatus::Complete => "complete".to_owned(),
    }
}

impl GalaxyState {
    /// Checks a launch and takes its cargo out of the origin station.  The
    /// origin and destination must differ; the first refusing planet, in
    /// visiting order, decides the error; then both planets must exist.  On
    /// success the cargo leaves every station with the origin's id, and the
    /// last planet visited with each id gives the distances and the
    /// destination's owner.
    pub fn plan_departure(&mut self, owner_id: &String, req: &CreateShipRequest) -> (r: Result<ShipDeparture, AppError>)
        requires
            old(self).wf(),
        ensures
            final(self).wf(),
            r is Err ==> final(self).systems@ == old(self).systems@,
            (req.origin_planet_id@ == req.destination_planet_id@) <==> (r matches Err(AppError::Ship(ShipError::SameStation))),
            req.origin_planet_id@ != req.destination_planet_id@ ==> ({
                let s = old(self).systems@;
                let o = req.origin_planet_id@;
                let d = req.destination_planet_id@;
                let refused = departure_refused(o, d, owner_id@, req.cargo@);
                if any_planet(s, refused) {
                    r matches Err(e) && departure_error_ok(first_where(s, refused), e, o, d, owner_id@, req.cargo@)
                } else if !any_planet(s, id_is(o)) {
                    r matches Err(AppError::PlanetNotFound(n)) && n@ == o
                } else if !any_planet(s, id_is(d)) {
                    r matches Err(AppError::PlanetNotFound(n)) && n@ == d
                } else {
                    &&& r matches Ok(dep)
                    &&& dep.origin_distance_ua_bits == last_where(s, id_is(o)).distance_ua_bits
                    &&& dep.destination_distance_ua_bits == last_where(s, id_is(d)).distance_ua_bits
                    &&& last_where(s, id_is(d)).status matches PlanetStatus::Connected { station, .. }
                    &&& dep.destination_owner_id == station.owner_id
                    &&& taken_from_all(s, final(self).systems@, o, req.cargo@)
                }
            }),
    {
        if req.origin_planet_id == req.destination_planet_id {
            return Err(AppError::Ship(ShipError::SameStation));
        }
        let ghost s = self.systems@;
        let ghost o = req.origin_planet_id@;
        let ghost d = req.destination_planet_id@;
        let ghost refused = departure_refused(o, d, owner_id@, req.cargo@);
        let ghost po = id_is(o);
        let ghost pd = id_is(d);
        let mut origin_bits: Option<u64> = None;
        let mut dest_bits: Option<u64> = None;
        let mut dest_owner = String::new();
        let ghost mut o_loc: (int, int) = (0, 0);
        let ghost mut d_loc: (int, int) = (0, 0);
        let n = self.systems.len();
        let mut i: usize = 0;
        while i < n
            invariant
                n == s.len(),
                s == self.systems@,
                i <= n,
                o != d,
                crate::galaxy::names_distinct(s),
                refused == departure_refused(o, d, owner_id@, req.cargo@),
                po == id_is(o),
                pd == id_is(d),
                o == req.origin_planet_id@,
                d == req.destination_planet_id@,
                forall|i2: int, j2: int| loc_ok(s, i2, j2) && i2 < i ==> !refused(#[trigger] planet_at(s, i2, j2)),
                origin_bits is Some <==> exists|i2: int, j2: int| loc_ok(s, i2, j2) && i2 < i && #[trigger] po(planet_at(s, i2, j2)),
                origin_bits matches Some(b) ==> loc_ok(s, o_loc.0, o_loc.1) && o_loc.0 < i && po(planet_at(s, o_loc.0, o_loc.1))
                    && b == planet_at(s, o_loc.0, o_loc.1).distance_ua_bits && forall|i2: int, j2: int| loc_ok(s, i2, j2) && i2 < i
                    && visited_before(o_loc.0, o_loc.1, i2, j2) ==> !po(#[trigger] planet_at(s, i2, j2)),
                dest_bits is Some <==> exists|i2: int, j2: int| loc_ok(s, i2, j2) && i2 < i && #[trigger] pd(planet_at(s, i2, j2)),
                dest_bits matches Some(b) ==> loc_ok(s, d_loc.0, d_loc.1) && d_loc.0 < i && pd(planet_at(s, d_loc.0, d_loc.1))
                    && b == planet_at(s, d_loc.0, d_loc.1).distance_ua_bits && (planet_at(s, d_loc.0, d_loc.1).status matches PlanetStatus::Connected { station, .. }
                    && dest_owner == station.owner_id) && forall|i2: int, j2: int| loc_ok(s, i2, j2) && i2 < i
                    && visited_before(d_loc.0, d_loc.1, i2, j2) ==> !pd(#[trigger] planet_at(s, i2, j2)),
            decreases n - i,
        {
            let planets = &self.systems[i].planets;
            let m = planets.len();
            let mut j: usize = 0;
            while j < m
                invariant
                    n == s.len(),
                    s == self.systems@,
                    i < n,
                    m == s[i as int].planets@.len(),
                    planets@ == s[i as int].planets@,
                    j <= m,
                    o != d,
                    crate::galaxy::names_distinct(s),
                    refused == departure_refused(o, d, owner_id@, req.cargo@),
                    po == id_is(o),
                    pd == id_is(d),
                    o == req.origin_planet_id@,
                    d == req.destination_planet_id@,
                    forall|i2: int, j2: int| loc_ok(s, i2, j2) && (i2 < i || (i2 == i && j2 < j)) ==> !refused(#[trigger] planet_at(s, i2, j2)),
                    origin_bits is Some <==> exists|i2: int, j2: int| loc_ok(s, i2, j2) && (i2 < i || (i2 == i && j2 < j)) && #[trigger] po(planet_at(s, i2, j2)),
                    origin_bits matches Some(b) ==> loc_ok(s, o_loc.0, o_loc.1) && visited_before(o_loc.0, o_loc.1, i as int, j as int) && po(planet_at(s, o_loc.0, o_loc.1))
                        && b == planet_at(s, o_loc.0, o_loc.1).distance_ua_bits && forall|i2: int, j2: int| loc_ok(s, i2, j2) && (i2 < i || (i2 == i && j2 < j))
                        && visited_before(o_loc.0, o_loc.1, i2, j2) ==> !po(#[trigger] planet_at(s, i2, j2)),
                    dest_bits is Some <==> exists|i2: int, j2: int| loc_ok(s, i2, j2) && (i2 < i || (i2 == i && j2 < j)) && #[trigger] pd(planet_at(s, i2, j2)),
                    dest_bits matches Some(b) ==> loc_ok(s, d_loc.0, d_loc.1) && visited_before(d_loc.0, d_loc.1, i as int, j as int) && pd(planet_at(s, d_loc.0, d_loc.1))
                        && b == planet_at(s, d_loc.0, d_loc.1).distance_ua_bits && (planet_at(s, d_loc.0, d_loc.1).status matches PlanetStatus::Connected { station, .. }
                        && dest_owner == station.owner_id) && forall|i2: int, j2: int| loc_ok(s, i2, j2) && (i2 < i || (i2 == i && j2 < j))
                        && visited_before(d_loc.0, d_loc.1, i2, j2) ==> !pd(#[trigger] planet_at(s, i2, j2)),
                decreases m - j,
            {
                let planet = &planets[j];
                proof {
                    assert(planet == planet_at(s, i as int, j as int));
                }
                if planet.id == req.origin_planet_id {
                    match &planet.status {
                        PlanetStatus::Connected { station, .. } => {
                            if station.owner_id != *owner_id {
                                proof {
                                    assert(refused(planet_at(s, i as int, j as int)));
                                    lemma_first_where_unique(s, refused, i as int, j as int);
                                }
                                return Err(AppError::Ship(ShipError::NotStationOwner));
                            }
                            match station.inventory.first_shortfall(&req.cargo) {
                                Some((good_name, requested, available)) => {
                                    proof {
                                        assert(refused(planet_at(s, i as int, j as int)));
                                        lemma_first_where_unique(s, refused, i as int, j as int);
                                    }
                                    return Err(AppError::Ship(ShipError::InsufficientCargo { good_name, requested, available }));
                                },
                                None => {},
                            }
                            origin_bits = Some(planet.distance_ua_bits);
                            proof {
                                o_loc = (i as int, j as int);
                                assert(po(planet_at(s, i as int, j as int)));
                            }
                        },
                        _ => {
                            proof {
                                assert(refused(planet_at(s, i as int, j as int)));
                                lemma_first_where_unique(s, refused, i as int, j as int);
                            }
                            return Err(AppError::NotConnected(req.origin_planet_id.clone()));
                        },
                    }
                }
                if planet.id == req.destination_planet_id {
                    match &planet.status {
                        PlanetStatus::Connected { station, .. } => {
                            dest_bits = Some(planet.distance_ua_bits);
                            dest_owner = station.owner_id.clone();
                            proof {
                                d_loc = (i as int, j as int);
                                assert(pd(planet_at(s, i as int, j as int)));
                            }
                        },
                        _ => {
                            proof {
                                assert(refused(planet_at(s, i as int, j as int)));
                                lemma_first_where_unique(s, refused, i as int, j as int);
                            }
                            return Err(AppError::NotConnected(req.destination_planet_id.clone()));
                        },
                    }
                }
                proof {
                    assert(!refused(planet_at(s, i as int, j as int)));
                    if planet.id@ != o {
                        assert(!po(planet_at(s, i as int, j as int)));
                    }
                    if planet.id@ != d {
                        assert(!pd(planet_at(s, i as int, j as int)));
                    }
                }
                j = j + 1;
            }
            i = i + 1;
        }
        proof {
            assert(forall|i2: int, j2: int| loc_ok(s, i2, j2) ==> !refused(#[trigger] planet_at(s, i2, j2)));
        }
        let ob = match origin_bits {
            Some(b) => b,
            None => return Err(AppError::PlanetNotFound(req.origin_planet_id.clone())),
        };
        let db = match dest_bits {
            Some(b) => b,
            None => return Err(AppError::PlanetNotFound(req.destination_planet_id.clone())),
        };
        proof {
            assert(is_last_where(s, po, o_loc.0, o_loc.1));
            lemma_last_where_unique(s, po, o_loc.0, o_loc.1);
            assert(is_last_where(s, pd, d_loc.0, d_loc.1));
            lemma_last_where_unique(s, pd, d_loc.0, d_loc.1);
            assert forall|i2: int, j2: int| #[trigger] loc_ok(s, i2, j2) && planet_at(s, i2, j2).id@ == o implies (planet_at(s, i2, j2).status matches PlanetStatus::Connected { station, .. } && covers(station.inventory@, req.cargo@)) by {
                assert(!refused(planet_at(s, i2, j2)));
            }
        }
        self.take_from_all(&req.origin_planet_id, &req.cargo);
        Ok(ShipDeparture {
            origin_distance_ua_bits: ob,
            destination_distance_ua_bits: db,
            destination_owner_id: dest_owner,
        })
    }
}

/// The ship launched by `owner_id` under `id` at `now`.
pub fn launch_ship(req: CreateShipRequest, owner_id: &String, id: u128, now: u64) -> (r: Ship)
    ensures
        is_launched_ship(r, req, *owner_id, id, now),
{
    Ship {
        id,
        owner_id: owner_id.clone(),
        origin_planet_id: req.origin_planet_id,
        destination_planet_id: req.destination_planet_id,
        cargo: req.cargo,
        status: ShipStatus::InTransit,
        trade_id: None,
        trucking_id: None,
        fee: None,
        created_at: now,
        arrival_at: None,
        operation_complete_at: None,
    }
}

/// Checks and pays a launch (see `plan_departure`), then launches the ship
/// under a fresh UUID at the current time.
pub fn create_ship(galaxy: &mut GalaxyState, owner_id: &String, req: CreateShipRequest) -> (r: Result<(Ship, ShipDeparture), AppError>)
    requires
        old(galaxy).wf(),
    ensures
        final(galaxy).wf(),
        r is Err ==> final(galaxy).systems@ == old(galaxy).systems@,
        r matches Err(e) ==> departure_refusal(old(galaxy).systems@, owner_id@, req, e),
        r matches Ok((ship, dep)) ==> is_launched_ship(ship, req, *owner_id, ship.id, ship.created_at)
            && ship.id & 0xF000_0000_0000_0000_0000u128 == 0x4000_0000_0000_0000_0000u128
            && taken_from_all(old(galaxy).systems@, final(galaxy).systems@, req.origin_planet_id@, req.cargo@)
            && dep.origin_distance_ua_bits == last_where(old(galaxy).systems@, id_is(req.origin_planet_id@)).distance_ua_bits
            && dep.destination_distance_ua_bits == last_where(old(galaxy).systems@, id_is(req.destination_planet_id@)).distance_ua_bits,
        r is Ok <==> req.origin_planet_id@ != req.destination_planet_id@
            && !any_planet(old(galaxy).systems@, departure_refused(req.origin_planet_id@, req.destination_planet_id@, owner_id@, req.cargo@))
            && any_planet(old(galaxy).systems@, id_is(req.origin_planet_id@))
            && any_planet(old(galaxy).systems@, id_is(req.destination_planet_id@)),
{
    let dep = match galaxy.plan_departure(owner_id, &req) {
        Ok(d) => d,
        Err(e) => return Err(e),
    };
    let id = new_uuid();
    let now = now_ms();
    Ok((launch_ship(req, owner_id, id, now), dep))
}

/// Position of the first ship with id `id`.
pub fn find_ship(list: &Vec<Ship>, id: u128) -> (r: Option<usize>)
    ensures
        r is None <==> forall|k: int| 0 <= k < list@.len() ==> #[trigger] list@[k].id != id,
        r matches Some(k) ==> is_first_ship(list@, id, k as int),
{
    let n = list.len();
    let mut k: usize = 0;
    while k < n
        invariant
            n == list@.len(),
            k <= n,
            forall|m: int| 0 <= m < k ==> #[trigger] list@[m].id != id,
        decreases n - k,
    {
        if list[k].id == id {
            return Some(k);
        }
        k = k + 1;
    }
    None
}

/// Position of the ship with id `id`, or the error that it is unknown.
pub fn ship_position(list: &Vec<Ship>, id: u128) -> (r: Result<usize, AppError>)
    ensures
        r is Err <==> forall|k: int| 0 <= k < list@.len() ==> #[trigger] list@[k].id != id,
        r matches Err(e) ==> e matches AppError::Ship(ShipError::ShipNotFound(n)) && n@ == uuid_text(id),
        r matches Ok(k) ==> is_first_ship(list@, id, k as int),
{
    match find_ship(list, id) {
        Some(k) => Ok(k),
        None => Err(AppError::Ship(ShipError::ShipNotFound(uuid_string(id)))),
    }
}

/// Reads a ship at `now`; reading it first ends a loading or unloading whose
/// time has passed.  Answers its position.
pub fn get_ship(list: &mut Vec<Ship>, id: u128, now: u64) -> (r: Result<usize, AppError>)
    ensures
        ship_ids_distinct(old(list)@) ==> ship_ids_distinct(final(list)@),
        r is Err ==> final(list)@ == old(list)@,
        r is Err <==> forall|k: int| 0 <= k < old(list)@.len() ==> #[trigger] old(list)@[k].id != id,
        r matches Err(e) ==> e matches AppError::Ship(ShipError::ShipNotFound(n)) && n@ == uuid_text(id),
        r matches Ok(k) ==> is_first_ship(old(list)@, id, k as int) && final(list)@ == old(list)@.update(
            k as int,
            polled(old(list)@[k as int], now),
        ),
{
    let k = ship_position(list, id)?;
    poll_operation(&mut list[k], now);
    Ok(k)
}

/// Positions of the ships that pass the owner and status filters.
pub fn list_ships(list: &Vec<Ship>, player_id: Option<String>, status: Option<String>) -> (r: Vec<usize>)
    ensures
        is_selection(r@, list@.len() as int, ship_query_keeps(list@, player_id, status)),
{
    let ghost keep = ship_query_keeps(list@, player_id, status);
    let n = list.len();
    let mut out: Vec<usize> = Vec::new();
    let mut k: usize = 0;
    while k < n
        invariant
            n == list@.len(),
            k <= n,
            keep == ship_query_keeps(list@, player_id, status),
            is_selection(out@, k as int, keep),
        decreases n - k,
    {
        let owner_ok = match &player_id {
            Some(pid) => list[k].owner_id == *pid,
            None => true,
        };
        let status_ok = match &status {
            Some(st) => status_name(list[k].status) == *st,
            None => true,
        };
        proof {
            assert((owner_ok && status_ok) == keep(k as int));
            lemma_selection_step(out@, k as int, keep);
        }
        if owner_ok && status_ok {
            out.push(k);
        }
        k = k + 1;
    }
    out
}

/// Docks the ship with id `id` (see `dock_ship`): the authorization is
/// checked first, then that the ship exists.
pub fn dock_ship_by_id(
    list: &mut Vec<Ship>,
    galaxy: &GalaxyState,
    id: u128,
    owner_id: &String,
    authorized: bool,
    complete_at: u64,
) -> (r: Result<usize, AppError>)
    ensures
        ship_ids_distinct(old(list)@) ==> ship_ids_distinct(final(list)@),
        r is Err ==> final(list)@ == old(list)@,
        !authorized ==> r matches Err(AppError::Ship(ShipError::InvalidShipState)),
        authorized && (forall|k: int| 0 <= k < old(list)@.len() ==> #[trigger] old(list)@[k].id != id) ==> (r matches Err(
            AppError::Ship(ShipError::ShipNotFound(n)),
        ) && n@ == uuid_text(id)),
        r matches Ok(k) ==> {
            let o = old(list)@[k as int];
            &&& authorized
            &&& is_first_ship(old(list)@, id, k as int)
            &&& o.status == ShipStatus::AwaitingDockingAuth
            &&& any_planet(galaxy.systems@, crate::ship_lifecycle::station_of(o.destination_planet_id@, owner_id@))
            &&& final(list)@ == old(list)@.update(k as int, crate::ship_lifecycle::docked(o, complete_at))
        },
        authorized ==> forall|k: int| is_first_ship(old(list)@, id, k) && !any_planet(galaxy.systems@,
            crate::ship_lifecycle::station_of(old(list)@[k].destination_planet_id@, owner_id@))
            ==> (r matches Err(AppError::Ship(ShipError::NotStationOwner))),
        authorized ==> forall|k: int| is_first_ship(old(list)@, id, k) && any_planet(galaxy.systems@,
            crate::ship_lifecycle::station_of(old(list)@[k].destination_planet_id@, owner_id@))
            && old(list)@[k].status != ShipStatus::AwaitingDockingAuth
            ==> (r matches Err(AppError::Ship(ShipError::InvalidShipState))),
        authorized ==> forall|k: int| is_first_ship(old(list)@, id, k) ==> (r is Ok <==> (old(list)@[k].status == ShipStatus::AwaitingDockingAuth
            && any_planet(galaxy.systems@, crate::ship_lifecycle::station_of(old(list)@[k].destination_planet_id@, owner_id@)))),
{
    if !authorized {
        return Err(crate::error::AppError::Ship(ShipError::InvalidShipState));
    }
    let k = ship_position(list, id)?;
    proof {
        assert forall|k2: int| is_first_ship(old(list)@, id, k2) implies k2 == k by {
            if k2 < k {
                assert(old(list)@[k2].id != id);
            } else if k2 > k {
                assert(old(list)@[k as int].id != id);
            }
        }
    }
    dock_ship(galaxy, &mut list[k], owner_id, authorized, complete_at)?;
    Ok(k)
}

/// Whether undocking the ship with id `id` would go through and its cargo
/// would overflow a quantity at a destination station.
pub fn undock_overflows(list: &Vec<Ship>, galaxy: &GalaxyState, id: u128, owner_id: &String, authorized: bool, now: u64) -> (r: bool)
    ensures
        r ==> exists|k: int| is_first_ship(list@, id, k) && undock_allowed(galaxy.systems@, list@[k], owner_id@, authorized, now)
            && !delivery_fits(galaxy.systems@, list@[k].destination_planet_id@, list@[k].cargo@),
        !r ==> forall|k: int| is_first_ship(list@, id, k) && undock_allowed(galaxy.systems@, list@[k], owner_id@, authorized, now)
            ==> delivery_fits(galaxy.systems@, list@[k].destination_planet_id@, list@[k].cargo@),
{
    let k = match find_ship(list, id) {
        Some(k) => k,
        None => return false,
    };
    proof {
        assert forall|k2: int| is_first_ship(list@, id, k2) implies k2 == k by {
            if k2 < k {
                assert(list@[k2].id != id);
            } else if k2 > k {
                assert(list@[k as int].id != id);
            }
        }
    }
    let ship = &list[k];
    if !authorized || !galaxy.owns_station_at(&ship.destination_planet_id, owner_id) {
        return false;
    }
    let done = match ship.operation_complete_at {
        Some(t) => now >= t,
        None => false,
    };
    let awaiting = ship.status == ShipStatus::AwaitingUndockingAuth
        || ((ship.status == ShipStatus::Loading || ship.status == ShipStatus::Unloading) && done);
    if !awaiting {
        return false;
    }
    !galaxy.delivery_fits(&ship.destination_planet_id, &ship.cargo)
}

/// Undocks the ship with id `id` at `now` (see `undock_ship`): the
/// authorization is checked first, then that the ship exists.
pub fn undock_ship_by_id(
    list: &mut Vec<Ship>,
    galaxy: &mut GalaxyState,
    id: u128,
    owner_id: &String,
    authorized: bool,
    now: u64,
) -> (r: Result<usize, AppError>)
    requires
        old(galaxy).wf(),
        forall|k: int| is_first_ship(old(list)@, id, k) && undock_allowed(old(galaxy).systems@, old(list)@[k], owner_id@, authorized, now)
            ==> delivery_fits(old(galaxy).systems@, old(list)@[k].destination_planet_id@, old(list)@[k].cargo@),
    ensures
        ship_ids_distinct(old(list)@) ==> ship_ids_distinct(final(list)@),
        final(galaxy).wf(),
        r is Err ==> final(list)@ == old(list)@,
        authorized ==> forall|k: int| is_first_ship(old(list)@, id, k) && !any_planet(old(galaxy).systems@,
            crate::ship_lifecycle::station_of(old(list)@[k].destination_planet_id@, owner_id@))
            ==> (r matches Err(AppError::Ship(ShipError::NotStationOwner))),
        authorized ==> forall|k: int| is_first_ship(old(list)@, id, k) && any_planet(old(galaxy).systems@,
            crate::ship_lifecycle::station_of(old(list)@[k].destination_planet_id@, owner_id@))
            && polled(old(list)@[k], now).status != ShipStatus::AwaitingUndockingAuth
            ==> (r matches Err(AppError::Ship(ShipError::InvalidShipState))),
        !authorized ==> r matches Err(AppError::Ship(ShipError::InvalidShipState)),
        authorized && (forall|k: int| 0 <= k < old(list)@.len() ==> #[trigger] old(list)@[k].id != id) ==> (r matches Err(
            AppError::Ship(ShipError::ShipNotFound(n)),
        ) && n@ == uuid_text(id)),
        r matches Ok(k) ==> {
            let o = old(list)@[k as int];
            &&& authorized
            &&& is_first_ship(old(list)@, id, k as int)
            &&& polled(o, now).status == ShipStatus::AwaitingUndockingAuth
            &&& any_planet(old(galaxy).systems@, crate::ship_lifecycle::station_of(o.destination_planet_id@, owner_id@))
            &&& final(list)@ == old(list)@.update(k as int, crate::ship_lifecycle::undocked(o, now))
            &&& crate::ship_lifecycle::delivered_to_all(old(galaxy).systems@, final(galaxy).systems@, o.destination_planet_id@, o.cargo@)
        },
        authorized ==> forall|k: int| is_first_ship(old(list)@, id, k) ==> (r is Ok <==> (polled(old(list)@[k], now).status == ShipStatus::AwaitingUndockingAuth
            && any_planet(old(galaxy).systems@, crate::ship_lifecycle::station_of(old(list)@[k].destination_planet_id@, owner_id@)))),
        r is Err ==> final(galaxy).systems@ == old(galaxy).systems@,
{
    if !authorized {
        return Err(crate::error::AppError::Ship(ShipError::InvalidShipState));
    }
    let k = ship_position(list, id)?;
    proof {
        assert forall|k2: int| is_first_ship(old(list)@, id, k2) implies k2 == k by {
            if k2 < k {
                assert(old(list)@[k2].id != id);
            } else if k2 > k {
                assert(old(list)@[k as int].id != id);
            }
        }
    }
    undock_ship(galaxy, &mut list[k], owner_id, authorized, now)?;
    Ok(k)
}


/// No two ships share an id, as in a map keyed by id.
pub open spec fn ship_ids_distinct(s: Seq<Ship>) -> bool {
    forall|a: int, b: int| 0 <= a < b < s.len() ==> s[a].id != s[b].id
}

/// Stores `item` as a map keyed by id does: it replaces the first ship with the
/// same id, or else is appended.  Ids that were distinct stay distinct.
pub fn insert_ship(list: &mut Vec<Ship>, item: Ship)
    ensures
        ship_ids_distinct(old(list)@) ==> ship_ids_distinct(final(list)@),
        forall|k: int| is_first_ship(old(list)@, item.id, k) ==> final(list)@ == old(list)@.update(k, item),
        (forall|k: int| 0 <= k < old(list)@.len() ==> #[trigger] old(list)@[k].id != item.id) ==> final(list)@ == old(list)@.push(item),
{
    match find_ship(list, item.id) {
        Some(k) => {
            proof {
                assert forall|k2: int| is_first_ship(old(list)@, item.id, k2) implies k2 == k by {
                    if k2 < k {
                        assert(old(list)@[k2].id != item.id);
                    } else if k2 > k {
                        assert(old(list)@[k as int].id != item.id);
                    }
                }
            }
            list.set(k, item);
            proof {
                assert forall|a: int, b: int| ship_ids_distinct(old(list)@) && 0 <= a < b < list@.len() implies list@[a].id != list@[b].id by {
                    if a != k && b != k {
                        assert(old(list)@[a].id != old(list)@[b].id);
                    }
                }
            }
        },
        None => {
            list.push(item);
            proof {
                assert forall|a: int, b: int| ship_ids_distinct(old(list)@) && 0 <= a < b < list@.len() implies list@[a].id != list@[b].id by {
                    if b < old(list)@.len() {
                        assert(old(list)@[a].id != old(list)@[b].id);
                    } else {
                        assert(old(list)@[a].id != item.id);
                    }
                }
            }
        },
    }
}

} // verus!
