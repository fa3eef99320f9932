//! Properties of the library that span several of its functions.
use vstd::prelude::*;

use crate::config::{all_digits, digits_part, digits_value, is_digit, parse_u16_spec};
use crate::error::{AppError, ConstructionError};
use crate::galaxy::{any_planet, connected_id_is, first_where, has_system, id_is, names_distinct, system_index};
use crate::inventory::{addition_fits, after_addition, after_deduction, covers, qty_of};
use crate::models::{
    FoundSettlementRequest, Player, PlanetStatus, ProjectType, Ship, ShipStatus, StationUpgradeType, System,
    TradeDirection, TradeRequest, TradeRequestMode, TradeRequestStatus,
};
use crate::routes::construction::{
    charged, credit_error, found_target_error, lemma_player_index, player_index, route_planned, source_error,
    upgrade_fee, upgrade_goods, upgrade_project_type, ConstructionConfig, ConstructionRoute,
};
use crate::routes::settlements::settlement_replaced;
use crate::routes::players::bearer_token;
use crate::routes::stations::station_installed;
use crate::ship_lifecycle::{arrived, docked, polled, ship_same_but_progress, undocked};
use crate::text::{decimal, digit_char};
use crate::trade_lifecycle::{law_tick_keeps_request, tick_units_spec, trade_ticked};

verus! {

/// How far along its journey a ship is.
pub open spec fn ship_stage(s: ShipStatus) -> nat {
    match s {
        ShipStatus::InTransitToOrigin => 0,
        ShipStatus::AwaitingOriginDockingAuth => 1,
        ShipStatus::Loading => 2,
        ShipStatus::AwaitingOriginUndockingAuth => 3,
        ShipStatus::InTransit => 4,
        ShipStatus::AwaitingDockingAuth => 5,
        ShipStatus::Unloading => 6,
        ShipStatus::AwaitingUndockingAuth => 7,
        ShipStatus::Complete => 8,
    }
}

/// Taking a cargo out of a stock that holds it and adding the same cargo
/// back gives every good its former quantity: goods a ship carries leave the
/// origin and reach the destination whole.
pub proof fn law_cargo_round_trip(stock: Map<Seq<char>, u64>, cargo: Map<Seq<char>, u64>)
    requires
        covers(stock, cargo),
    ensures
        addition_fits(after_deduction(stock, cargo), cargo),
        forall|g: Seq<char>| #[trigger] qty_of(after_addition(after_deduction(stock, cargo), cargo), g) == qty_of(stock, g),
{
    let taken = after_deduction(stock, cargo);
    assert forall|g: Seq<char>| #[trigger] cargo.contains_key(g) implies qty_of(taken, g) + cargo[g] <= u64::MAX by {
        assert(cargo[g] <= qty_of(stock, g));
    }
    assert forall|g: Seq<char>| #[trigger] qty_of(after_addition(taken, cargo), g) == qty_of(stock, g) by {
        if cargo.contains_key(g) {
            assert(cargo[g] <= qty_of(stock, g));
        }
    }
}

/// A ship's status never moves backwards: arriving, docking, the end of an
/// unloading and undocking each move it forward, and each keeps its
/// identity, route and cargo.  A completed ship stays complete.
pub proof fn law_ship_moves_forward(s: Ship, now: u64, complete_at: u64)
    ensures
        s.status == ShipStatus::InTransit ==> ship_stage(arrived(s, now).status) > ship_stage(s.status),
        ship_stage(polled(s, now).status) >= ship_stage(s.status),
        s.status == ShipStatus::AwaitingDockingAuth ==> ship_stage(docked(s, complete_at).status) > ship_stage(s.status),
        polled(s, now).status == ShipStatus::AwaitingUndockingAuth ==> ship_stage(undocked(s, now).status) > ship_stage(s.status),
        s.status == ShipStatus::Complete ==> polled(s, now) == s,
        ship_same_but_progress(s, arrived(s, now)),
        ship_same_but_progress(s, polled(s, now)),
        ship_same_but_progress(s, docked(s, complete_at)),
        ship_same_but_progress(s, undocked(s, now)),
{
}

/// A fixed-rate request never produces beyond its total.
pub proof fn law_fixed_rate_within_total(r: TradeRequest)
    requires
        r.mode == TradeRequestMode::FixedRate,
        r.total_quantity matches Some(t) && r.cumulative_generated <= t,
    ensures
        r.cumulative_generated + tick_units_spec(r) <= r.total_quantity->0,
        tick_units_spec(r) <= r.rate_per_tick,
        tick_units_spec(r) == 0 ==> r.rate_per_tick == 0 || r.cumulative_generated == r.total_quantity->0,
{
}

/// No tick produces more than the request's rate.
pub proof fn law_tick_within_rate(r: TradeRequest)
    ensures
        tick_units_spec(r) <= r.rate_per_tick,
        r.mode != TradeRequestMode::FixedRate ==> tick_units_spec(r) == r.rate_per_tick,
{
}

/// A player that passed the credit check keeps a non-negative balance after
/// paying, and only its balance changes.
pub proof fn law_payment_keeps_credits(p0: Seq<Player>, p1: Seq<Player>, owner: String, fee: u64)
    requires
        fee <= i64::MAX,
        credit_error(p0, owner, fee) is None,
        charged(p0, p1, owner@, fee),
    ensures
        p1.len() == p0.len(),
        p1[player_index(p0, owner@)].credits >= 0,
        p1[player_index(p0, owner@)].credits == p0[player_index(p0, owner@)].credits - fee,
        forall|k: int| 0 <= k < p0.len() && k != player_index(p0, owner@) ==> p1[k] == p0[k],
{
    lemma_player_index(p0, owner@);
}

/// A system just added is found under its name, at the end of the list.
pub proof fn law_created_system_found(old: Seq<System>, new: Seq<System>, name: Seq<char>)
    requires
        names_distinct(new),
        new.len() == old.len() + 1,
        new.drop_last() == old,
        new.last().name@ == name,
    ensures
        has_system(new, name),
        system_index(new, name) == old.len(),
        new[system_index(new, name)] == new.last(),
{
    let k = new.len() - 1;
    assert(new[k].name@ == name);
    let c = system_index(new, name);
    if c != k {
        assert(new[c].name@ != new[k].name@);
    }
}

proof fn lemma_digit_char_value(d: nat)
    requires
        d < 10,
    ensures
        is_digit(digit_char(d)),
        digit_char(d) as nat - '0' as nat == d,
{
}

/// The decimal notation of a number reads back as that number.
pub proof fn law_decimal_reads_back(n: nat)
    ensures
        all_digits(decimal(n)),
        decimal(n).len() > 0,
        digits_value(decimal(n)) == n,
    decreases n,
{
    if n < 10 {
        lemma_digit_char_value(n);
        assert(decimal(n).drop_last() =~= Seq::<char>::empty());
        assert(digits_value(decimal(n)) == digits_value(Seq::<char>::empty()) * 10 + n);
    } else {
        law_decimal_reads_back(n / 10);
        lemma_digit_char_value(n % 10);
        assert(decimal(n).drop_last() =~= decimal(n / 10));
        assert(decimal(n).last() == digit_char(n % 10));
        assert((n / 10) * 10 + n % 10 == n);
        assert(digits_value(decimal(n)) == digits_value(decimal(n / 10)) * 10 + (n % 10));
    }
}

/// Planets created at different positions around the same star get
/// different ids.
pub proof fn law_planet_ids_differ(star: Seq<char>, p1: u32, p2: u32)
    requires
        p1 != p2,
    ensures
        star + seq!['-'] + decimal(p1 as nat) != star + seq!['-'] + decimal(p2 as nat),
{
    law_decimal_reads_back(p1 as nat);
    law_decimal_reads_back(p2 as nat);
    let a = star + seq!['-'] + decimal(p1 as nat);
    let b = star + seq!['-'] + decimal(p2 as nat);
    if a == b {
        let k: int = star.len() as int + 1;
        assert(a.skip(k) =~= decimal(p1 as nat));
        assert(b.skip(k) =~= decimal(p2 as nat));
    }
}

/// A port number written in decimal parses back to itself.
pub proof fn law_port_round_trip(n: u16)
    ensures
        parse_u16_spec(decimal(n as nat)) == Some(n),
{
    law_decimal_reads_back(n as nat);
    let d = decimal(n as nat);
    assert(is_digit(d[0]));
    assert(digits_part(d) == d);
}

/// A player presenting `Bearer ` followed by its key is read as that key.
pub proof fn law_bearer_round_trip(key: Seq<char>)
    ensures
        bearer_token(seq!['B', 'e', 'a', 'r', 'e', 'r', ' '] + key) == Some(key),
{
    let h = seq!['B', 'e', 'a', 'r', 'e', 'r', ' '] + key;
    assert(h.take(7) =~= seq!['B', 'e', 'a', 'r', 'e', 'r', ' ']);
    assert(h.skip(7) =~= key);
}

/// Building a station on a settled planet and removing it again leaves the
/// planet as it was: settled, with the same settlement.
pub proof fn law_station_removal_restores(old: PlanetStatus, mid: PlanetStatus, name: String, owner: String, channels: u32)
    requires
        old is Settled,
        station_installed(old, mid, name, owner, channels),
    ensures
        mid matches PlanetStatus::Connected { settlement, .. } && (PlanetStatus::Settled { settlement }) == old,
{
}

/// A trade request over a run of ticks (`rs[i]` becomes `rs[i + 1]` in the
/// tick at `times[i]`): it keeps its identity and terms; once it stops being
/// active it never changes again; a fixed-rate request never goes beyond its
/// total and is never auto-cancelled; a standing request with a rate is
/// never completed.  (What each single tick does to the status is
/// `law_tick_keeps_request`.)
pub proof fn law_trade_run(ss: Seq<Seq<System>>, rs: Seq<TradeRequest>, times: Seq<u64>, runs: Seq<bool>)
    requires
        rs.len() >= 1,
        ss.len() == rs.len(),
        times.len() + 1 == rs.len(),
        runs.len() + 1 == rs.len(),
        forall|i: int| #![trigger times[i]] 0 <= i < times.len() ==> trade_ticked(ss[i], ss[i + 1], rs[i], rs[i + 1], times[i], runs[i]),
    ensures
        forall|i: int| #![trigger rs[i]] 0 <= i < rs.len() ==> rs[i].id == rs[0].id && rs[i].owner_id == rs[0].owner_id
            && rs[i].planet_id == rs[0].planet_id && rs[i].good_name == rs[0].good_name && rs[i].direction == rs[0].direction
            && rs[i].mode == rs[0].mode && rs[i].rate_per_tick == rs[0].rate_per_tick && rs[i].total_quantity == rs[0].total_quantity
            && rs[i].target_level == rs[0].target_level,
        forall|i: int, j: int| 0 <= i <= j < rs.len() && #[trigger] rs[i].status != TradeRequestStatus::Active ==> #[trigger] rs[j] == rs[i],
        rs[0].mode == TradeRequestMode::FixedRate && rs[0].total_quantity is Some && rs[0].cumulative_generated <= rs[0].total_quantity->0
            ==> forall|i: int| 0 <= i < rs.len() ==> #[trigger] rs[i].cumulative_generated <= rs[0].total_quantity->0,
        rs[0].mode == TradeRequestMode::FixedRate && rs[0].status != TradeRequestStatus::AutoCancelled
            ==> forall|i: int| 0 <= i < rs.len() ==> #[trigger] rs[i].status != TradeRequestStatus::AutoCancelled,
        rs[0].mode == TradeRequestMode::Standing && rs[0].rate_per_tick > 0 && rs[0].status != TradeRequestStatus::Completed
            ==> forall|i: int| 0 <= i < rs.len() ==> #[trigger] rs[i].status != TradeRequestStatus::Completed,
    decreases rs.len(),
{
    let n = rs.len() as int;
    if n > 1 {
        let ss2 = ss.drop_last();
        let rs2 = rs.drop_last();
        let t2 = times.drop_last();
        let u2 = runs.drop_last();
        assert forall|i: int| #![trigger t2[i]] 0 <= i < t2.len() implies trade_ticked(ss2[i], ss2[i + 1], rs2[i], rs2[i + 1], t2[i], u2[i]) by {
            assert(times[i] == t2[i]);
        }
        law_trade_run(ss2, rs2, t2, u2);
        assert(times[n - 2] == times[n - 2]);
        law_tick_keeps_request(ss[n - 2], ss[n - 1], rs[n - 2], rs[n - 1], times[n - 2], runs[n - 2]);
        assert forall|i: int| 0 <= i < n - 1 implies #[trigger] rs[i] == rs2[i] by {}
        assert forall|i: int| 0 <= i < n - 2 implies #[trigger] times[i] == t2[i] && runs[i] == u2[i] by {}
        assert(rs2[0] == rs[0]);
        assert forall|i: int, j: int| 0 <= i <= j < n && #[trigger] rs[i].status != TradeRequestStatus::Active implies #[trigger] rs[j] == rs[i] by {
            if j < n - 1 {
                assert(rs2[i].status != TradeRequestStatus::Active);
                assert(rs2[j] == rs2[i]);
            } else if i < n - 1 {
                assert(rs2[i].status != TradeRequestStatus::Active);
                assert(rs2[n - 2] == rs2[i]);
            }
        }
        assert forall|i: int| #![trigger rs[i]] 0 <= i < n implies rs[i].id == rs[0].id && rs[i].owner_id == rs[0].owner_id
            && rs[i].planet_id == rs[0].planet_id && rs[i].good_name == rs[0].good_name && rs[i].direction == rs[0].direction
            && rs[i].mode == rs[0].mode && rs[i].rate_per_tick == rs[0].rate_per_tick && rs[i].total_quantity == rs[0].total_quantity
            && rs[i].target_level == rs[0].target_level by {
            if i < n - 1 {
                assert(rs2[i] == rs[i]);
            } else {
                assert(rs2[n - 2] == rs[n - 2]);
            }
        }
        if rs[0].mode == TradeRequestMode::FixedRate && rs[0].total_quantity is Some && rs[0].cumulative_generated <= rs[0].total_quantity->0 {
            assert(rs2[n - 2].cumulative_generated <= rs[0].total_quantity->0);
            assert forall|i: int| 0 <= i < n implies #[trigger] rs[i].cumulative_generated <= rs[0].total_quantity->0 by {
                if i < n - 1 {
                    assert(rs2[i] == rs[i]);
                }
            }
        }
        if rs[0].mode == TradeRequestMode::FixedRate && rs[0].status != TradeRequestStatus::AutoCancelled {
            assert(rs2[n - 2].status != TradeRequestStatus::AutoCancelled);
            assert forall|i: int| 0 <= i < n implies #[trigger] rs[i].status != TradeRequestStatus::AutoCancelled by {
                if i < n - 1 {
                    assert(rs2[i] == rs[i]);
                }
            }
        }
        if rs[0].mode == TradeRequestMode::Standing && rs[0].rate_per_tick > 0 && rs[0].status != TradeRequestStatus::Completed {
            assert(rs2[n - 2].status != TradeRequestStatus::Completed);
            assert forall|i: int| 0 <= i < n implies #[trigger] rs[i].status != TradeRequestStatus::Completed by {
                if i < n - 1 {
                    assert(rs2[i] == rs[i]);
                }
            }
        }
    }
}


/// A tick of an active threshold request after which the first connected
/// planet with its id holds at least the target in the settlement's supply
/// (for an export) or demand (for an import) ends the request: it completes
/// (or is auto-cancelled) and stops running.  While that level stays below
/// the target, a tick with a rate does not complete it.
pub proof fn law_threshold_reached_by_level(
    s: Seq<System>,
    s1: Seq<System>,
    r0: TradeRequest,
    r1: TradeRequest,
    now: u64,
    running: bool,
)
    requires
        trade_ticked(s, s1, r0, r1, now, running),
        r0.status == TradeRequestStatus::Active,
        r0.mode == TradeRequestMode::Threshold,
        r0.target_level is Some,
        any_planet(s1, connected_id_is(r0.planet_id@)),
    ensures
        (first_where(s1, connected_id_is(r0.planet_id@)).status matches PlanetStatus::Connected { settlement, .. }
            && r0.direction == TradeDirection::Export
            && qty_of(settlement.economy.supply@, r0.good_name@) >= r0.target_level->0)
            ==> !running && (r1.status == TradeRequestStatus::Completed || r1.status == TradeRequestStatus::AutoCancelled),
        (first_where(s1, connected_id_is(r0.planet_id@)).status matches PlanetStatus::Connected { settlement, .. }
            && r0.direction == TradeDirection::Import
            && qty_of(settlement.economy.demand@, r0.good_name@) >= r0.target_level->0)
            ==> !running && (r1.status == TradeRequestStatus::Completed || r1.status == TradeRequestStatus::AutoCancelled),
        (first_where(s1, connected_id_is(r0.planet_id@)).status matches PlanetStatus::Connected { settlement, .. }
            && r0.rate_per_tick > 0
            && (r0.direction == TradeDirection::Export ==> qty_of(settlement.economy.supply@, r0.good_name@) < r0.target_level->0)
            && (r0.direction == TradeDirection::Import ==> qty_of(settlement.economy.demand@, r0.good_name@) < r0.target_level->0))
            ==> r1.status != TradeRequestStatus::Completed,
{
}

/// A settlement founding goes through only onto a planet that exists and
/// is uninhabited; when the planets differ and the source is the player's
/// station, a target that is settled or has a station refuses the order
/// with `TargetNotUninhabited`, and nothing is charged.
pub proof fn law_founding_needs_uninhabited_target(
    s0: Seq<System>,
    s1: Seq<System>,
    p0: Seq<Player>,
    p1: Seq<Player>,
    owner: String,
    body: FoundSettlementRequest,
    fee: u64,
    goods: Map<Seq<char>, u64>,
    r: Result<ConstructionRoute, AppError>,
)
    requires
        route_planned(s0, s1, p0, p1, owner, body.source_planet_id, body.target_planet_id,
            found_target_error(s0, body.target_planet_id), fee, goods, r),
    ensures
        r is Ok ==> any_planet(s0, id_is(body.target_planet_id@))
            && first_where(s0, id_is(body.target_planet_id@)).status is Uninhabited,
        (body.source_planet_id@ != body.target_planet_id@
            && source_error(s0, body.source_planet_id, owner, ConstructionError::NotSourceStationOwner) is None
            && any_planet(s0, id_is(body.target_planet_id@))
            && !(first_where(s0, id_is(body.target_planet_id@)).status is Uninhabited))
            ==> r == Err::<ConstructionRoute, AppError>(AppError::Construction(ConstructionError::TargetNotUninhabited(body.target_planet_id)))
            && s1 == s0 && p1 == p0,
{
}

/// Each station upgrade is priced by its own configuration: docking bays,
/// mass-driver channels and storage each take their own fee and goods and
/// record their own project type.
pub proof fn law_upgrade_prices(config: ConstructionConfig)
    ensures
        upgrade_fee(config, StationUpgradeType::DockingBays) == config.upgrade_docking_bay_fee,
        upgrade_goods(config, StationUpgradeType::DockingBays) == config.upgrade_docking_bay_goods@,
        upgrade_project_type(StationUpgradeType::DockingBays) == ProjectType::UpgradeDockingBays,
        upgrade_fee(config, StationUpgradeType::MassDriverChannels) == config.upgrade_mass_driver_fee,
        upgrade_goods(config, StationUpgradeType::MassDriverChannels) == config.upgrade_mass_driver_goods@,
        upgrade_project_type(StationUpgradeType::MassDriverChannels) == ProjectType::UpgradeMassDriverChannels,
        upgrade_fee(config, StationUpgradeType::Storage) == config.upgrade_storage_fee,
        upgrade_goods(config, StationUpgradeType::Storage) == config.upgrade_storage_goods@,
        upgrade_project_type(StationUpgradeType::Storage) == ProjectType::UpgradeStorage,
{
}

/// A built or replaced station carries the requested name and owner and
/// starts empty, whatever the planet was before, and the settlement stays.
/// A new station on a settled planet gets a mass driver with the default
/// channels, two docking bays, unlimited storage and an empty space elevator
/// of two cabins whose warehouse belongs to the owner; a replaced one keeps
/// its mass driver, bays, storage limit and space elevator.
pub proof fn law_station_named_as_requested(old: PlanetStatus, new: PlanetStatus, name: String, owner: String, channels: u32)
    requires
        station_installed(old, new, name, owner, channels),
    ensures
        new matches PlanetStatus::Connected { station, .. } && station.name == name && station.owner_id == owner
            && station.inventory@ == Map::<Seq<char>, u64>::empty(),
        old matches PlanetStatus::Settled { settlement: s0 } ==> (new matches PlanetStatus::Connected {
            settlement,
            station,
            space_elevator,
        } && settlement == s0 && station.mass_driver == Some(crate::models::MassDriver { channels })
            && station.docking_bays == 2 && station.max_storage == u64::MAX
            && space_elevator.warehouse.owner_id == owner
            && space_elevator.warehouse.inventory@ == Map::<Seq<char>, u64>::empty() && space_elevator.cabin_count == 2),
        old matches PlanetStatus::Connected { settlement: s0, station: st0, space_elevator: el0 } ==> (new matches PlanetStatus::Connected {
            settlement,
            station,
            space_elevator,
        } && settlement == s0 && space_elevator == el0 && station.mass_driver == st0.mass_driver
            && station.docking_bays == st0.docking_bays && station.max_storage == st0.max_storage),
        !(old is Uninhabited),
{
}

/// A new settlement carries the requested name and population and starts
/// with no supply, demand or founding goods; on a connected planet the
/// planet stays connected with the very same station and space elevator,
/// and otherwise it becomes settled.
pub proof fn law_settlement_keeps_station(old: PlanetStatus, new: PlanetStatus, name: String, population: u64)
    requires
        settlement_replaced(old, new, name, population),
    ensures
        old matches PlanetStatus::Connected { station: st0, space_elevator: el0, .. } ==> (new matches PlanetStatus::Connected {
            settlement,
            station,
            space_elevator,
        } && station == st0 && space_elevator == el0 && settlement.name == name && settlement.population == population
            && settlement.economy.supply@ == Map::<Seq<char>, u64>::empty()
            && settlement.economy.demand@ == Map::<Seq<char>, u64>::empty()
            && settlement.founding_goods@ == Map::<Seq<char>, u64>::empty()),
        !(old is Connected) ==> (new matches PlanetStatus::Settled { settlement } && settlement.name == name
            && settlement.population == population
            && settlement.economy.supply@ == Map::<Seq<char>, u64>::empty()
            && settlement.economy.demand@ == Map::<Seq<char>, u64>::empty()
            && settlement.founding_goods@ == Map::<Seq<char>, u64>::empty()),
{
}

} // verus!
