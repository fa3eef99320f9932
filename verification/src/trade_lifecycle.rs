//! One tick of a running trade request: the decisions of the trade loop.
//!
//! The server's loop sleeps between ticks; each tick, with the galaxy and
//! the request in hand, is the function `run_trade_tick` here.
use vstd::prelude::*;

use crate::galaxy::{
    any_planet, connected_id_is, first_loc, first_where, id_is, lemma_planets_replaced_wf,
    one_planet_changed, only_status_changed, planet_at, GalaxyState,
};
use crate::inventory::qty_of;
use crate::routes::trade::{find_trade_request, is_first_request};
use crate::models::{
    Planet, PlanetStatus, Settlement, TradeDirection, TradeRequest, TradeRequestMode,
    TradeRequestStatus,
};

verus! {

/// Units one tick produces: a fixed-rate request produces at most what is
/// left of its total; the other modes produce their rate.
pub open spec fn tick_units_spec(r: TradeRequest) -> u64 {
    match r.mode {
        TradeRequestMode::FixedRate => {
            let total = match r.total_quantity {
                Some(t) => t,
                None => 0,
            };
            let left = if total >= r.cumulative_generated { (total - r.cumulative_generated) as u64 } else { 0 };
            if r.rate_per_tick <= left { r.rate_per_tick } else { left }
        },
        _ => r.rate_per_tick,
    }
}

/// The request ends by itself: a standing or threshold request whose planet
/// is missing or lost its station, or exports a good its warehouse lacks.
pub open spec fn auto_cancel_spec(s: Seq<crate::models::System>, r: TradeRequest) -> bool {
    if r.mode == TradeRequestMode::FixedRate {
        false
    } else if !any_planet(s, id_is(r.planet_id@)) {
        true
    } else {
        match first_where(s, id_is(r.planet_id@)).status {
            PlanetStatus::Connected { space_elevator, .. } => r.direction == TradeDirection::Export
                && qty_of(space_elevator.warehouse.inventory@, r.good_name@) == 0,
            _ => true,
        }
    }
}

/// The settlement's level of the request's good: supply for exports,
/// demand for imports.
pub open spec fn level_of(s: Settlement, r: TradeRequest) -> u64 {
    match r.direction {
        TradeDirection::Export => qty_of(s.economy.supply@, r.good_name@),
        TradeDirection::Import => qty_of(s.economy.demand@, r.good_name@),
    }
}

/// The request's target level is reached on the first connected planet
/// with its id.
pub open spec fn threshold_reached_spec(s: Seq<crate::models::System>, r: TradeRequest) -> bool {
    match r.target_level {
        None => false,
        Some(t) => any_planet(s, connected_id_is(r.planet_id@)) && match first_where(
            s,
            connected_id_is(r.planet_id@),
        ).status {
            PlanetStatus::Connected { settlement, .. } => level_of(settlement, r) >= t,
            _ => false,
        },
    }
}

/// Adding `units` to the level that a tick changes stays within `u64`.
pub open spec fn tick_addition_fits(s: Seq<crate::models::System>, r: TradeRequest, units: u64) -> bool {
    any_planet(s, id_is(r.planet_id@)) ==> match first_where(s, id_is(r.planet_id@)).status {
        PlanetStatus::Connected { settlement, .. } => level_of(settlement, r) + units <= u64::MAX,
        _ => true,
    }
}

/// `new` is `old` with `units` more of the good in the settlement's supply
/// (exports) or demand (imports).
pub open spec fn economy_grown(old: Planet, new: Planet, r: TradeRequest, units: u64) -> bool {
    &&& only_status_changed(old, new)
    &&& match old.status {
        PlanetStatus::Connected { settlement: s0, station: t0, space_elevator: e0 } => match new.status {
            PlanetStatus::Connected { settlement: s, station: t, space_elevator: e } => {
                &&& t == t0
                &&& e == e0
                &&& s.name == s0.name
                &&& s.population == s0.population
                &&& s.founding_goods == s0.founding_goods
                &&& match r.direction {
                    TradeDirection::Export => s.economy.demand == s0.economy.demand && s.economy.supply@
                        == s0.economy.supply@.insert(r.good_name@, (level_of(s0, r) + units) as u64),
                    TradeDirection::Import => s.economy.supply == s0.economy.supply && s.economy.demand@
                        == s0.economy.demand@.insert(r.good_name@, (level_of(s0, r) + units) as u64),
                }
            },
            _ => false,
        },
        _ => false,
    }
}

/// Whether a tick can run without overflowing a counter: either it stops
/// before adding anything, or the cumulative count and the changed level
/// both stay within `u64`.
pub open spec fn tick_fits_spec(s: Seq<crate::models::System>, r: TradeRequest) -> bool {
    r.status == TradeRequestStatus::Active && !auto_cancel_spec(s, r) && tick_units_spec(r) > 0 ==> {
        &&& r.cumulative_generated + tick_units_spec(r) <= u64::MAX
        &&& tick_addition_fits(s, r, tick_units_spec(r))
    }
}

/// Units the next tick of `request` produces.
pub fn tick_units(request: &TradeRequest) -> (r: u64)
    ensures
        r == tick_units_spec(*request),
{
    match request.mode {
        TradeRequestMode::FixedRate => {
            let total = match request.total_quantity {
                Some(t) => t,
                None => 0,
            };
            let left = total.saturating_sub(request.cumulative_generated);
            if request.rate_per_tick <= left {
                request.rate_per_tick
            } else {
                left
            }
        },
        TradeRequestMode::Standing => request.rate_per_tick,
        TradeRequestMode::Threshold => request.rate_per_tick,
    }
}

/// Whether the request should end by itself (see `auto_cancel_spec`).
pub fn check_auto_cancel(galaxy: &GalaxyState, request: &TradeRequest) -> (r: bool)
    ensures
        r == auto_cancel_spec(galaxy.systems@, *request),
{
    if request.mode == TradeRequestMode::FixedRate {
        return false;
    }
    match galaxy.locate_first(&request.planet_id, false) {
        None => true,
        Some((i, j)) => match &galaxy.systems[i].planets[j].status {
            PlanetStatus::Connected { space_elevator, .. } => match request.direction {
                TradeDirection::Export => space_elevator.warehouse.inventory.get(&request.good_name) == 0,
                TradeDirection::Import => false,
            },
            _ => true,
        },
    }
}

fn level(settlement: &Settlement, request: &TradeRequest) -> (r: u64)
    ensures
        r == level_of(*settlement, *request),
{
    match request.direction {
        TradeDirection::Export => settlement.economy.supply.get(&request.good_name),
        TradeDirection::Import => settlement.economy.demand.get(&request.good_name),
    }
}

/// Whether a threshold request's target level is reached.
pub fn check_threshold_reached(galaxy: &GalaxyState, request: &TradeRequest) -> (r: bool)
    ensures
        r == threshold_reached_spec(galaxy.systems@, *request),
{
    let target = match request.target_level {
        Some(t) => t,
        None => return false,
    };
    match galaxy.locate_first(&request.planet_id, true) {
        None => false,
        Some((i, j)) => match &galaxy.systems[i].planets[j].status {
            PlanetStatus::Connected { settlement, .. } => level(settlement, request) >= target,
            _ => false,
        },
    }
}

/// Whether the next tick of `request` can run without overflow.
pub fn tick_fits(galaxy: &GalaxyState, request: &TradeRequest) -> (r: bool)
    ensures
        r == tick_fits_spec(galaxy.systems@, *request),
{
    if request.status != TradeRequestStatus::Active || check_auto_cancel(galaxy, request) {
        return true;
    }
    let units = tick_units(request);
    if units == 0 {
        return true;
    }
    if request.cumulative_generated > u64::MAX - units {
        return false;
    }
    match galaxy.locate_first(&request.planet_id, false) {
        None => true,
        Some((i, j)) => match &galaxy.systems[i].planets[j].status {
            PlanetStatus::Connected { settlement, .. } => level(settlement, request) <= u64::MAX - units,
            _ => true,
        },
    }
}

/// Adds `units` of the good to the supply (exports) or demand (imports) of
/// the settlement on the first planet with the request's id, when that
/// planet has a station; otherwise changes nothing.
pub fn apply_trade_tick(galaxy: &mut GalaxyState, request: &TradeRequest, units: u64)
    requires
        old(galaxy).wf(),
        tick_addition_fits(old(galaxy).systems@, *request, units),
    ensures
        final(galaxy).wf(),
        ({
            let s = old(galaxy).systems@;
            let p = id_is(request.planet_id@);
            if any_planet(s, p) && first_where(s, p).status is Connected {
                let (i, j) = first_loc(s, p);
                &&& one_planet_changed(s, final(galaxy).systems@, i, j)
                &&& economy_grown(planet_at(s, i, j), planet_at(final(galaxy).systems@, i, j), *request, units)
            } else {
                final(galaxy).systems@ == s
            }
        }),
{
    let (i, j) = match galaxy.locate_first(&request.planet_id, false) {
        None => return,
        Some(l) => l,
    };
    match galaxy.systems[i].planets[j].status {
        PlanetStatus::Connected { .. } => {},
        _ => return,
    }
    let ghost before = galaxy.systems@;
    let planet = &mut galaxy.systems[i].planets[j];
    match &mut planet.status {
        PlanetStatus::Connected { settlement, .. } => {
            match request.direction {
                TradeDirection::Export => settlement.economy.supply.add(&request.good_name, units),
                TradeDirection::Import => settlement.economy.demand.add(&request.good_name, units),
            }
        },
        _ => {},
    }
    proof {
        lemma_planets_replaced_wf(before, galaxy.systems@, i as int, galaxy.systems@[i as int].planets@);
        assert(one_planet_changed(before, galaxy.systems@, i as int, j as int));
        assert(economy_grown(planet_at(before, i as int, j as int), planet_at(galaxy.systems@, i as int, j as int), *request, units));
    }
}

/// One tick of a trade request at time `now`: galaxy `s` becomes `s1`, the
/// request `r0` becomes `r1`, and `running` tells whether it goes on.
pub open spec fn trade_ticked(s: Seq<crate::models::System>, s1: Seq<crate::models::System>, r0: TradeRequest, r1: TradeRequest, now: u64, running: bool) -> bool {
    let units = tick_units_spec(r0);
    let same_but_status = r1.id == r0.id && r1.owner_id == r0.owner_id && r1.planet_id == r0.planet_id
        && r1.good_name == r0.good_name && r1.direction == r0.direction && r1.mode == r0.mode
        && r1.rate_per_tick == r0.rate_per_tick && r1.total_quantity == r0.total_quantity
        && r1.target_level == r0.target_level && r1.created_at == r0.created_at;
    if r0.status != TradeRequestStatus::Active {
        !running && r1 == r0 && s1 == s
    } else if auto_cancel_spec(s, r0) {
        &&& !running
        &&& s1 == s
        &&& same_but_status
        &&& r1.cumulative_generated == r0.cumulative_generated
        &&& r1.status == TradeRequestStatus::AutoCancelled
        &&& r1.completed_at == Some(now)
    } else if units == 0 {
        &&& !running
        &&& s1 == s
        &&& same_but_status
        &&& r1.cumulative_generated == r0.cumulative_generated
        &&& r1.status == TradeRequestStatus::Completed
        &&& r1.completed_at == Some(now)
    } else {
        let finished = (r0.mode == TradeRequestMode::FixedRate && r0.cumulative_generated + units
            >= (match r0.total_quantity { Some(t) => t, None => 0 })) || (r0.mode
            == TradeRequestMode::Threshold && threshold_reached_spec(s1, r0));
        &&& same_but_status
        &&& r1.cumulative_generated == r0.cumulative_generated + units
        &&& (if any_planet(s, id_is(r0.planet_id@)) && first_where(s, id_is(r0.planet_id@)).status is Connected {
            let (i, j) = first_loc(s, id_is(r0.planet_id@));
            one_planet_changed(s, s1, i, j) && economy_grown(
                planet_at(s, i, j),
                planet_at(s1, i, j),
                r0,
                units,
            )
        } else {
            s1 == s
        })
        &&& running == !finished
        &&& finished ==> r1.status == TradeRequestStatus::Completed && r1.completed_at == Some(now)
        &&& !finished ==> r1.status == r0.status && r1.completed_at == r0.completed_at
    }
}

/// Runs one tick of a trade request at time `now`; answers whether the
/// request is still running.  An inactive request does nothing.  A request
/// that auto-cancels, or a fixed-rate request with nothing left, ends
/// without producing.  Otherwise the tick's units are added to the
/// settlement and to the request's count; a fixed-rate request that reaches
/// its total, or a threshold request whose target is reached, completes.
pub fn run_trade_tick(galaxy: &mut GalaxyState, request: &mut TradeRequest, now: u64) -> (running: bool)
    requires
        old(galaxy).wf(),
        tick_fits_spec(old(galaxy).systems@, *old(request)),
    ensures
        final(galaxy).wf(),
        trade_ticked(old(galaxy).systems@, final(galaxy).systems@, *old(request), *final(request), now, running),
{
    if request.status != TradeRequestStatus::Active {
        return false;
    }
    if check_auto_cancel(galaxy, request) {
        request.status = TradeRequestStatus::AutoCancelled;
        request.completed_at = Some(now);
        return false;
    }
    let units = tick_units(request);
    if units == 0 {
        request.status = TradeRequestStatus::Completed;
        request.completed_at = Some(now);
        return false;
    }
    apply_trade_tick(galaxy, request, units);
    request.cumulative_generated = request.cumulative_generated + units;
    let completed = match request.mode {
        TradeRequestMode::FixedRate => {
            let total = match request.total_quantity {
                Some(t) => t,
                None => 0,
            };
            request.cumulative_generated >= total
        },
        TradeRequestMode::Standing => false,
        TradeRequestMode::Threshold => false,
    };
    if completed {
        request.status = TradeRequestStatus::Completed;
        request.completed_at = Some(now);
        return false;
    }
    if request.mode == TradeRequestMode::Threshold && check_threshold_reached(galaxy, request) {
        request.status = TradeRequestStatus::Completed;
        request.completed_at = Some(now);
        return false;
    }
    true
}

/// Runs one tick of the first trade request with id `id` (see
/// `run_trade_tick`); no other request changes.  Without such a request
/// nothing happens and the answer is that nothing is running.
pub fn tick_request(list: &mut Vec<TradeRequest>, galaxy: &mut GalaxyState, id: u128, now: u64) -> (running: bool)
    requires
        old(galaxy).wf(),
        forall|k: int| is_first_request(old(list)@, id, k) ==> tick_fits_spec(old(galaxy).systems@, old(list)@[k]),
    ensures
        crate::routes::trade::request_ids_distinct(old(list)@) ==> crate::routes::trade::request_ids_distinct(final(list)@),
        final(galaxy).wf(),
        (forall|k: int| 0 <= k < old(list)@.len() ==> #[trigger] old(list)@[k].id != id) ==> !running
            && final(list)@ == old(list)@ && final(galaxy).systems@ == old(galaxy).systems@,
        forall|k: int| is_first_request(old(list)@, id, k) ==> {
            &&& final(list)@ == old(list)@.update(k, final(list)@[k])
            &&& trade_ticked(old(galaxy).systems@, final(galaxy).systems@, old(list)@[k], final(list)@[k], now, running)
        },
{
    let k = match find_trade_request(list, id) {
        Some(k) => k,
        None => return false,
    };
    proof {
        assert forall|k2: int| is_first_request(old(list)@, id, k2) implies k2 == k by {
            if k2 < k {
                assert(old(list)@[k2].id != id);
            } else if k2 > k {
                assert(old(list)@[k as int].id != id);
            }
        }
    }
    let running = run_trade_tick(galaxy, &mut list[k], now);
    proof {
        assert(list@ =~= old(list)@.update(k as int, list@[k as int]));
    }
    running
}

/// What one tick does to a request: it keeps its identity and terms; only an
/// active request changes, and its status only moves on to completed or
/// auto-cancelled, stamped with the tick's time; a request keeps running
/// only while active; a standing request with a rate is never completed; a
/// fixed-rate request is never auto-cancelled, never goes beyond its total
/// and completes when it reaches it.
pub proof fn law_tick_keeps_request(s: Seq<crate::models::System>, s1: Seq<crate::models::System>, r0: TradeRequest, r1: TradeRequest, now: u64, running: bool)
    requires
        trade_ticked(s, s1, r0, r1, now, running),
    ensures
        r1.id == r0.id && r1.owner_id == r0.owner_id && r1.planet_id == r0.planet_id && r1.good_name == r0.good_name,
        r1.direction == r0.direction && r1.mode == r0.mode && r1.rate_per_tick == r0.rate_per_tick,
        r1.total_quantity == r0.total_quantity && r1.target_level == r0.target_level && r1.created_at == r0.created_at,
        r0.status != TradeRequestStatus::Active ==> r1 == r0 && s1 == s && !running,
        r1.status != r0.status ==> r0.status == TradeRequestStatus::Active && (r1.status == TradeRequestStatus::Completed
            || r1.status == TradeRequestStatus::AutoCancelled) && r1.completed_at == Some(now),
        r1.status == r0.status ==> r1.completed_at == r0.completed_at,
        running ==> r0.status == TradeRequestStatus::Active && r1.status == TradeRequestStatus::Active,
        r1.status != TradeRequestStatus::Active ==> !running,
        r0.mode == TradeRequestMode::Standing && r0.rate_per_tick > 0 ==> r1.status != TradeRequestStatus::Completed
            || r0.status == TradeRequestStatus::Completed,
        r0.mode == TradeRequestMode::FixedRate ==> r1.status != TradeRequestStatus::AutoCancelled
            || r0.status == TradeRequestStatus::AutoCancelled,
        r0.mode == TradeRequestMode::FixedRate && r0.total_quantity is Some && r0.cumulative_generated <= r0.total_quantity->0
            ==> r1.cumulative_generated <= r0.total_quantity->0,
        r0.mode == TradeRequestMode::FixedRate && r0.status == TradeRequestStatus::Active && r0.total_quantity is Some
            && r1.cumulative_generated >= r0.total_quantity->0 ==> r1.status == TradeRequestStatus::Completed,
{
}

} // verus!
