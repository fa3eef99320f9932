//! Trade requests of players: open, list, read, cancel.
use vstd::prelude::*;

use crate::error::{AppError, TradeRequestError};
use crate::galaxy::{
    any_planet, first_where, id_is, is_selection, lemma_first_where_unique, lemma_selection_step,
    loc_ok, planet_at, GalaxyState,
};
use crate::ids::{new_uuid, uuid_string, uuid_text};
use crate::models::{
    CreateTradeRequestBody, Planet, PlanetStatus, TradeRequest, TradeRequestMode,
    TradeRequestStatus,
};
use crate::time::now_ms;

verus! {

/// A planet with id `id` on which `owner` may not open a trade request: it
/// has no station, or someone else owns the station.
pub open spec fn trade_site_refused(id: Seq<char>, owner: Seq<char>) -> spec_fn(Planet) -> bool {
    |p: Planet|
        p.id@ == id && !(p.status matches PlanetStatus::Connected { station, .. } && station.owner_id@ == owner)
}

/// Mode-specific fields of the body are present and the rate is not zero.
pub open spec fn trade_body_complete(body: CreateTradeRequestBody) -> bool {
    &&& body.rate_per_tick != 0
    &&& body.mode == TradeRequestMode::FixedRate ==> body.total_quantity is Some
    &&& body.mode == TradeRequestMode::Threshold ==> body.target_level is Some
}

/// The request opened from `body` by `owner` with id `id` at time `now`.
pub open spec fn is_opened_request(r: TradeRequest, body: CreateTradeRequestBody, owner: String, id: u128, now: u64) -> bool {
    &&& r.id == id
    &&& r.owner_id == owner
    &&& r.planet_id == body.planet_id
    &&& r.good_name == body.good_name
    &&& r.direction == body.direction
    &&& r.mode == body.mode
    &&& r.rate_per_tick == body.rate_per_tick
    &&& r.total_quantity == body.total_quantity
    &&& r.target_level == body.target_level
    &&& r.cumulative_generated == 0
    &&& r.status == TradeRequestStatus::Active
    &&& r.created_at == now
    &&& r.completed_at is None
}

/// Position of the first request with id `id`.
pub open spec fn is_first_request(list: Seq<TradeRequest>, id: u128, k: int) -> bool {
    &&& 0 <= k < list.len()
    &&& list[k].id == id
    &&& forall|m: int| 0 <= m < k ==> #[trigger] list[m].id != id
}

/// The request belongs to `owner`.
pub open spec fn owned_request(list: Seq<TradeRequest>, owner: Seq<char>) -> spec_fn(int) -> bool {
    |k: int| list[k].owner_id@ == owner
}

/// Checks a trade-request body and the planet it names: the rate must not
/// be zero, a fixed-rate request needs a total and a threshold request a
/// target; every planet with the id must have a station owned by the player,
/// and at least one must exist.
pub fn validate_trade_request(galaxy: &GalaxyState, owner_id: &String, body: &CreateTradeRequestBody) -> (r: Result<(), AppError>)
    ensures
        (body.rate_per_tick == 0) <==> (r matches Err(AppError::TradeRequest(TradeRequestError::ZeroRate))),
        (body.rate_per_tick != 0 && body.mode == TradeRequestMode::FixedRate && body.total_quantity is None)
            <==> (r matches Err(AppError::TradeRequest(TradeRequestError::TotalQuantityRequired))),
        (body.rate_per_tick != 0 && body.mode == TradeRequestMode::Threshold && body.target_level is None)
            <==> (r matches Err(AppError::TradeRequest(TradeRequestError::TargetLevelRequired))),
        trade_body_complete(*body) ==> {
            let s = galaxy.systems@;
            let refused = trade_site_refused(body.planet_id@, owner_id@);
            if any_planet(s, refused) {
                match first_where(s, refused).status {
                    PlanetStatus::Connected { .. } => r matches Err(
                        AppError::TradeRequest(TradeRequestError::NotStationOwner(n)),
                    ) && n@ == body.planet_id@,
                    _ => r matches Err(AppError::TradeRequest(TradeRequestError::PlanetNotConnected(n)))
                        && n@ == body.planet_id@,
                }
            } else if !any_planet(s, id_is(body.planet_id@)) {
                r matches Err(AppError::PlanetNotFound(n)) && n@ == body.planet_id@
            } else {
                r is Ok
            }
        },
{
    if body.rate_per_tick == 0 {
        return Err(AppError::TradeRequest(TradeRequestError::ZeroRate));
    }
    match body.mode {
        TradeRequestMode::FixedRate => {
            if body.total_quantity.is_none() {
                return Err(AppError::TradeRequest(TradeRequestError::TotalQuantityRequired));
            }
        },
        TradeRequestMode::Threshold => {
            if body.target_level.is_none() {
                return Err(AppError::TradeRequest(TradeRequestError::TargetLevelRequired));
            }
        },
        TradeRequestMode::Standing => {},
    }
    let ghost s = galaxy.systems@;
    let ghost refused = trade_site_refused(body.planet_id@, owner_id@);
    let ghost found_p = id_is(body.planet_id@);
    let mut found = false;
    let n = galaxy.systems.len();
    let mut i: usize = 0;
    while i < n
        invariant
            n == s.len(),
            s == galaxy.systems@,
            i <= n,
            refused == trade_site_refused(body.planet_id@, owner_id@),
            trade_body_complete(*body),
            found_p == id_is(body.planet_id@),
            forall|i2: int, j2: int| loc_ok(s, i2, j2) && i2 < i ==> !refused(#[trigger] planet_at(s, i2, j2)),
            found <==> exists|i2: int, j2: int| loc_ok(s, i2, j2) && i2 < i && #[trigger] found_p(planet_at(s, i2, j2)),
        decreases n - i,
    {
        let planets = &galaxy.systems[i].planets;
        let m = planets.len();
        let mut j: usize = 0;
        while j < m
            invariant
                n == s.len(),
                s == galaxy.systems@,
                i < n,
                m == s[i as int].planets@.len(),
                planets@ == s[i as int].planets@,
                j <= m,
                refused == trade_site_refused(body.planet_id@, owner_id@),
                trade_body_complete(*body),
                found_p == id_is(body.planet_id@),
                forall|i2: int, j2: int| loc_ok(s, i2, j2) && (i2 < i || (i2 == i && j2 < j)) ==> !refused(#[trigger] planet_at(s, i2, j2)),
                found <==> exists|i2: int, j2: int| loc_ok(s, i2, j2) && (i2 < i || (i2 == i && j2 < j)) && #[trigger] found_p(planet_at(s, i2, j2)),
            decreases m - j,
        {
            if planets[j].id == body.planet_id {
                proof {
                    assert(found_p(planet_at(s, i as int, j as int)));
                }
                found = true;
                match &planets[j].status {
                    PlanetStatus::Connected { station, .. } => {
                        if station.owner_id != *owner_id {
                            proof {
                                assert(refused(planet_at(s, i as int, j as int)));
                                lemma_first_where_unique(s, refused, i as int, j as int);
                            }
                            return Err(AppError::TradeRequest(TradeRequestError::NotStationOwner(body.planet_id.clone())));
                        }
                    },
                    _ => {
                        proof {
                            assert(refused(planet_at(s, i as int, j as int)));
                            lemma_first_where_unique(s, refused, i as int, j as int);
                        }
                        return Err(AppError::TradeRequest(TradeRequestError::PlanetNotConnected(body.planet_id.clone())));
                    },
                }
            }
            proof {
                assert(!refused(planet_at(s, i as int, j as int)));
            }
            j = j + 1;
        }
        i = i + 1;
    }
    if !found {
        return Err(AppError::PlanetNotFound(body.planet_id.clone()));
    }
    Ok(())
}

/// The request opened from `body` by `owner_id`, with id `id`, at `now`.
pub fn open_trade_request(body: CreateTradeRequestBody, owner_id: &String, id: u128, now: u64) -> (r: TradeRequest)
    ensures
        is_opened_request(r, body, *owner_id, id, now),
{
    TradeRequest {
        id,
        owner_id: owner_id.clone(),
        planet_id: body.planet_id,
        good_name: body.good_name,
        direction: body.direction,
        mode: body.mode,
        rate_per_tick: body.rate_per_tick,
        total_quantity: body.total_quantity,
        target_level: body.target_level,
        cumulative_generated: 0,
        status: TradeRequestStatus::Active,
        created_at: now,
        completed_at: None,
    }
}

/// The error that refuses `body` from `owner` in galaxy `s`, checked in this
/// order: a zero rate, a fixed-rate request without a total, a threshold
/// request without a target, the first refusing planet (no station, or the
/// station of someone else), then a planet that does not exist.
pub open spec fn trade_refusal(s: Seq<crate::models::System>, owner: Seq<char>, body: CreateTradeRequestBody, e: AppError) -> bool {
    let refused = trade_site_refused(body.planet_id@, owner);
    if body.rate_per_tick == 0 {
        e matches AppError::TradeRequest(TradeRequestError::ZeroRate)
    } else if body.mode == TradeRequestMode::FixedRate && body.total_quantity is None {
        e matches AppError::TradeRequest(TradeRequestError::TotalQuantityRequired)
    } else if body.mode == TradeRequestMode::Threshold && body.target_level is None {
        e matches AppError::TradeRequest(TradeRequestError::TargetLevelRequired)
    } else if any_planet(s, refused) {
        match first_where(s, refused).status {
            PlanetStatus::Connected { .. } => e matches AppError::TradeRequest(TradeRequestError::NotStationOwner(n))
                && n@ == body.planet_id@,
            _ => e matches AppError::TradeRequest(TradeRequestError::PlanetNotConnected(n)) && n@ == body.planet_id@,
        }
    } else if !any_planet(s, id_is(body.planet_id@)) {
        e matches AppError::PlanetNotFound(n) && n@ == body.planet_id@
    } else {
        false
    }
}

/// Validates `body` and opens an active trade request for `owner_id` under a
/// fresh UUID, stamped with the current time.
pub fn create_trade_request(galaxy: &GalaxyState, owner_id: &String, body: CreateTradeRequestBody) -> (r: Result<TradeRequest, AppError>)
    ensures
        ({
            let v = validate_trade_request_spec(galaxy.systems@, *owner_id, body);
            &&& v is Ok <==> r is Ok
            &&& r matches Err(e) ==> trade_refusal(galaxy.systems@, owner_id@, body, e)
            &&& r matches Ok(t) ==> t.id & 0xF000_0000_0000_0000_0000u128 == 0x4000_0000_0000_0000_0000u128
                && is_opened_request(t, body, *owner_id, t.id, t.created_at)
        }),
{
    match validate_trade_request(galaxy, owner_id, &body) {
        Err(e) => Err(e),
        Ok(()) => {
            let id = new_uuid();
            let now = now_ms();
            Ok(open_trade_request(body, owner_id, id, now))
        },
    }
}

/// Whether a body passes `validate_trade_request`.
pub open spec fn validate_trade_request_spec(s: Seq<crate::models::System>, owner: String, body: CreateTradeRequestBody) -> Result<(), ()> {
    if trade_body_complete(body) && !any_planet(s, trade_site_refused(body.planet_id@, owner@)) && any_planet(
        s,
        id_is(body.planet_id@),
    ) {
        Ok(())
    } else {
        Err(())
    }
}

/// Position of the first request with id `id`.
pub fn find_trade_request(list: &Vec<TradeRequest>, id: u128) -> (r: Option<usize>)
    ensures
        r is None <==> forall|k: int| 0 <= k < list@.len() ==> #[trigger] list@[k].id != id,
        r matches Some(k) ==> is_first_request(list@, id, k as int),
{
    let n = list.len();
    let mut k: usize = 0;
    while k < n
        invariant
            n == list@.len(),
            k <= n,
            forall|m: int| 0 <= m < k ==> #[trigger] list@[m].id != id,
        decreases n - k,
    {
        if list[k].id == id {
            return Some(k);
        }
        k = k + 1;
    }
    None
}

/// Positions of the requests of `owner_id`.
pub fn list_trade_requests(list: &Vec<TradeRequest>, owner_id: &String) -> (r: Vec<usize>)
    ensures
        is_selection(r@, list@.len() as int, owned_request(list@, owner_id@)),
{
    let ghost keep = owned_request(list@, owner_id@);
    let n = list.len();
    let mut out: Vec<usize> = Vec::new();
    let mut k: usize = 0;
    while k < n
        invariant
            n == list@.len(),
            k <= n,
            keep == owned_request(list@, owner_id@),
            is_selection(out@, k as int, keep),
        decreases n - k,
    {
        proof {
            lemma_selection_step(out@, k as int, keep);
        }
        if list[k].owner_id == *owner_id {
            out.push(k);
        }
        k = k + 1;
    }
    out
}

/// The request with id `id` when `owner_id` owns it; a request of someone
/// else is reported as not found.
pub fn get_trade_request<'a>(list: &'a Vec<TradeRequest>, id: u128, owner_id: &String) -> (r: Result<&'a TradeRequest, AppError>)
    ensures
        r is Ok <==> exists|k: int| is_first_request(list@, id, k) && list@[k].owner_id@ == owner_id@,
        r matches Ok(t) ==> exists|k: int| is_first_request(list@, id, k) && *t == list@[k],
        r matches Err(e) ==> e matches AppError::TradeRequest(TradeRequestError::RequestNotFound(n)) && n@
            == uuid_text(id),
{
    match find_trade_request(list, id) {
        None => Err(AppError::TradeRequest(TradeRequestError::RequestNotFound(uuid_string(id)))),
        Some(k) => {
            if list[k].owner_id != *owner_id {
                proof {
                    assert forall|k2: int| is_first_request(list@, id, k2) implies list@[k2].owner_id@ != owner_id@ by {
                        if k2 < k {
                            assert(list@[k2].id != id);
                        } else if k2 > k {
                            assert(list@[k as int].id != id);
                        }
                    }
                }
                return Err(AppError::TradeRequest(TradeRequestError::RequestNotFound(uuid_string(id))));
            }
            Ok(&list[k])
        },
    }
}

/// Cancels the active request with id `id` of `owner_id` at `now`.  A request
/// of someone else is reported as not found; one that already ended cannot
/// be cancelled.
pub fn cancel_trade_request(list: &mut Vec<TradeRequest>, id: u128, owner_id: &String, now: u64) -> (r: Result<usize, AppError>)
    ensures
        request_ids_distinct(old(list)@) ==> request_ids_distinct(final(list)@),
        r is Err ==> final(list)@ == old(list)@,
        r matches Err(e) ==> (e matches AppError::TradeRequest(TradeRequestError::RequestNotFound(n)) && n@
            == uuid_text(id)) || (e matches AppError::TradeRequest(TradeRequestError::RequestNotActive(n))
            && n@ == uuid_text(id)),
        (r matches Err(AppError::TradeRequest(TradeRequestError::RequestNotFound(_)))) <==> !exists|k: int|
            is_first_request(old(list)@, id, k) && old(list)@[k].owner_id@ == owner_id@,
        r matches Ok(k) ==> {
            let o = old(list)@[k as int];
            let t = final(list)@[k as int];
            &&& is_first_request(old(list)@, id, k as int)
            &&& o.owner_id@ == owner_id@
            &&& o.status == TradeRequestStatus::Active
            &&& final(list)@.len() == old(list)@.len()
            &&& forall|m: int| 0 <= m < old(list)@.len() && m != k ==> final(list)@[m] == old(list)@[m]
            &&& t.status == TradeRequestStatus::Cancelled
            &&& t.completed_at == Some(now)
            &&& t.id == o.id && t.owner_id == o.owner_id && t.planet_id == o.planet_id && t.good_name == o.good_name
            &&& t.direction == o.direction && t.mode == o.mode && t.rate_per_tick == o.rate_per_tick
            &&& t.total_quantity == o.total_quantity && t.target_level == o.target_level
            &&& t.cumulative_generated == o.cumulative_generated && t.created_at == o.created_at
        },
        (exists|k: int| is_first_request(old(list)@, id, k) && old(list)@[k].owner_id@ == owner_id@) ==> (r is Ok
            <==> old(list)@[choose|k: int| is_first_request(old(list)@, id, k)].status == TradeRequestStatus::Active),
{
    let k = match find_trade_request(list, id) {
        None => return Err(AppError::TradeRequest(TradeRequestError::RequestNotFound(uuid_string(id)))),
        Some(k) => k,
    };
    proof {
        assert forall|k2: int| is_first_request(old(list)@, id, k2) implies k2 == k by {
            if k2 < k {
                assert(old(list)@[k2].id != id);
            } else if k2 > k {
                assert(old(list)@[k as int].id != id);
            }
        }
    }
    if list[k].owner_id != *owner_id {
        return Err(AppError::TradeRequest(TradeRequestError::RequestNotFound(uuid_string(id))));
    }
    if list[k].status != TradeRequestStatus::Active {
        return Err(AppError::TradeRequest(TradeRequestError::RequestNotActive(uuid_string(id))));
    }
    let request = &mut list[k];
    request.status = TradeRequestStatus::Cancelled;
    request.completed_at = Some(now);
    Ok(k)
}


/// No two requests share an id, as in a map keyed by id.
pub open spec fn request_ids_distinct(s: Seq<TradeRequest>) -> bool {
    forall|a: int, b: int| 0 <= a < b < s.len() ==> s[a].id != s[b].id
}

/// Stores `item` as a map keyed by id does: it replaces the first request with the
/// same id, or else is appended.  Ids that were distinct stay distinct.
pub fn insert_request(list: &mut Vec<TradeRequest>, item: TradeRequest)
    ensures
        request_ids_distinct(old(list)@) ==> request_ids_distinct(final(list)@),
        forall|k: int| is_first_request(old(list)@, item.id, k) ==> final(list)@ == old(list)@.update(k, item),
        (forall|k: int| 0 <= k < old(list)@.len() ==> #[trigger] old(list)@[k].id != item.id) ==> final(list)@ == old(list)@.push(item),
{
    match find_trade_request(list, item.id) {
        Some(k) => {
            proof {
                assert forall|k2: int| is_first_request(old(list)@, item.id, k2) implies k2 == k by {
                    if k2 < k {
                        assert(old(list)@[k2].id != item.id);
                    } else if k2 > k {
                        assert(old(list)@[k as int].id != item.id);
                    }
                }
            }
            list.set(k, item);
            proof {
                assert forall|a: int, b: int| request_ids_distinct(old(list)@) && 0 <= a < b < list@.len() implies list@[a].id != list@[b].id by {
                    if a != k && b != k {
                        assert(old(list)@[a].id != old(list)@[b].id);
                    }
                }
            }
        },
        None => {
            list.push(item);
            proof {
                assert forall|a: int, b: int| request_ids_distinct(old(list)@) && 0 <= a < b < list@.len() implies list@[a].id != list@[b].id by {
                    if b < old(list)@.len() {
                        assert(old(list)@[a].id != old(list)@[b].id);
                    } else {
                        assert(old(list)@[a].id != item.id);
                    }
                }
            }
        },
    }
}

} // verus!
