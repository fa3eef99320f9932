//! Construction projects: installing stations, founding settlements and
//! upgrading stations and elevators, paid in credits and goods.
use vstd::prelude::*;

use crate::error::{AppError, ConstructionError};
use crate::galaxy::{
    any_planet, first_loc, first_where, id_is, is_first_where, is_selection,
    lemma_first_where_unique, lemma_selection_step, loc_ok, names_distinct, planet_at,
    visited_before, GalaxyState,
};
use crate::ids::{new_uuid, uuid_string, uuid_text};
use crate::inventory::{addition_fits, after_addition, after_deduction, covers, qty_of, Inventory};
use crate::models::{
    ConstructionProject, ConstructionWebhookPayload, Coordinates, FoundSettlementRequest, InstallStationRequest, Planet,
    PlanetStatus, Player, ProjectStatus, ProjectType, StationUpgradeType, System,
    UpgradeElevatorRequest, UpgradeStationRequest,
};
use crate::routes::players::{find_player, has_player, is_first_player};
use crate::ship_lifecycle::same_shape;

verus! {

/// Prices of constructions: a fee in credits and goods.
pub struct ConstructionConfig {
    pub station_install_fee: u64,
    pub station_install_goods: Inventory,
    pub settlement_found_fee: u64,
    pub settlement_found_goods: Inventory,
    pub upgrade_docking_bay_fee: u64,
    pub upgrade_docking_bay_goods: Inventory,
    pub upgrade_mass_driver_fee: u64,
    pub upgrade_mass_driver_goods: Inventory,
    pub upgrade_storage_fee: u64,
    pub upgrade_storage_goods: Inventory,
    pub upgrade_cabin_fee: u64,
    pub upgrade_cabin_goods: Inventory,
}

impl ConstructionConfig {
    /// Every fee can be charged as a signed credit amount.
    pub open spec fn wf(&self) -> bool {
        &&& self.station_install_fee <= i64::MAX
        &&& self.settlement_found_fee <= i64::MAX
        &&& self.upgrade_docking_bay_fee <= i64::MAX
        &&& self.upgrade_mass_driver_fee <= i64::MAX
        &&& self.upgrade_storage_fee <= i64::MAX
        &&& self.upgrade_cabin_fee <= i64::MAX
    }
}

/// Where the goods a construction consumes are taken from.
#[derive(Clone, Copy, Debug, PartialEq, Eq, Structural)]
pub enum Depot {
    Station,
    Warehouse,
}

/// Where a planet lies, for computing travel times.
pub struct ProjectSite {
    pub system_name: String,
    pub coordinates: Coordinates,
    pub distance_ua_bits: u64,
}

/// The goods held in `depot` of a connected planet.
pub open spec fn depot_stock(p: Planet, depot: Depot) -> Map<Seq<char>, u64> {
    match p.status {
        PlanetStatus::Connected { station, space_elevator, .. } => match depot {
            Depot::Station => station.inventory@,
            Depot::Warehouse => space_elevator.warehouse.inventory@,
        },
        _ => Map::empty(),
    }
}

/// A connected planet with id `id` whose depot lacks some of `goods`.
pub open spec fn lacking_at(id: Seq<char>, goods: Map<Seq<char>, u64>, depot: Depot) -> spec_fn(Planet) -> bool {
    |p: Planet| p.id@ == id && p.status is Connected && !covers(depot_stock(p, depot), goods)
}

/// Planet `old` after its depot gave away `goods`.
pub open spec fn depot_gave(old: Planet, new: Planet, depot: Depot, goods: Map<Seq<char>, u64>) -> bool {
    &&& new.id == old.id
    &&& new.name == old.name
    &&& new.position == old.position
    &&& new.distance_ua_bits == old.distance_ua_bits
    &&& new.planet_type == old.planet_type
    &&& match old.status {
        PlanetStatus::Connected { settlement: s0, station: t0, space_elevator: e0 } => match new.status {
            PlanetStatus::Connected { settlement, station, space_elevator } => {
                &&& settlement == s0
                &&& match depot {
                    Depot::Station => {
                        &&& space_elevator == e0
                        &&& station.name == t0.name
                        &&& station.owner_id == t0.owner_id
                        &&& station.mass_driver == t0.mass_driver
                        &&& station.docking_bays == t0.docking_bays
                        &&& station.max_storage == t0.max_storage
                        &&& station.inventory@ == after_deduction(t0.inventory@, goods)
                    },
                    Depot::Warehouse => {
                        &&& station == t0
                        &&& space_elevator.cabin_count == e0.cabin_count
                        &&& space_elevator.warehouse.owner_id == e0.warehouse.owner_id
                        &&& space_elevator.warehouse.inventory@ == after_deduction(e0.warehouse.inventory@, goods)
                    },
                }
            },
            _ => false,
        },
        _ => false,
    }
}

/// Every connected planet with id `id` visited before (ci, cj) gave `goods`
/// from its depot; every other planet is unchanged.
pub open spec fn taken_before(old: Seq<System>, new: Seq<System>, id: Seq<char>, goods: Map<Seq<char>, u64>, depot: Depot, ci: int, cj: int) -> bool {
    &&& new.len() == old.len()
    &&& forall|i: int| 0 <= i < old.len() ==> same_shape(#[trigger] new[i], old[i])
    &&& forall|i: int, j: int| #[trigger] loc_ok(old, i, j) ==> if visited_before(i, j, ci, cj) && planet_at(old, i, j).id@ == id && planet_at(old, i, j).status is Connected {
        depot_gave(planet_at(old, i, j), planet_at(new, i, j), depot, goods)
    } else {
        planet_at(new, i, j) == planet_at(old, i, j)
    }
}

/// What taking `goods` from the depots of the planets with id `id` does:
/// the depots give them in visiting order until one lacks some, whose
/// shortfall is the error.
pub open spec fn goods_taken(old: Seq<System>, new: Seq<System>, id: Seq<char>, goods: Map<Seq<char>, u64>, depot: Depot, r: Result<(), AppError>) -> bool {
    let lacking = lacking_at(id, goods, depot);
    if any_planet(old, lacking) {
        let l = first_loc(old, lacking);
        let stock = depot_stock(first_where(old, lacking), depot);
        &&& taken_before(old, new, id, goods, depot, l.0, l.1)
        &&& r matches Err(AppError::Construction(ConstructionError::InsufficientGoods { good_name, requested, available }))
        &&& goods.contains_key(good_name@)
        &&& requested == goods[good_name@]
        &&& available == qty_of(stock, good_name@)
        &&& available < requested
    } else {
        taken_before(old, new, id, goods, depot, old.len() as int, 0) && r is Ok
    }
}

/// Position of the first player with id `id` (meaningful when one exists).
pub open spec fn player_index(list: Seq<Player>, id: Seq<char>) -> int {
    choose|k: int| is_first_player(list, id, k)
}

/// Some player has id `id`: then `player_index` is the position of the first
/// of them.
pub proof fn lemma_player_index(list: Seq<Player>, id: Seq<char>)
    requires
        has_player(list, id),
    ensures
        is_first_player(list, id, player_index(list, id)),
{
    let m = choose|m: int| 0 <= m < list.len() && #[trigger] list[m].id@ == id;
    lemma_first_player_before(list, id, m);
}

/// A player with id `id` at position `m`: a first player with that id
/// exists at or before `m`, and `player_index` is its position.
pub proof fn lemma_first_player_before(list: Seq<Player>, id: Seq<char>, m: int)
    requires
        0 <= m < list.len(),
        list[m].id@ == id,
    ensures
        is_first_player(list, id, player_index(list, id)),
        player_index(list, id) <= m,
    decreases m,
{
    if exists|k: int| 0 <= k < m && #[trigger] list[k].id@ == id {
        let k = choose|k: int| 0 <= k < m && #[trigger] list[k].id@ == id;
        lemma_first_player_before(list, id, k);
    } else {
        assert(is_first_player(list, id, m));
        let c = player_index(list, id);
        if c < m {
            assert(list[c].id@ == id);
        }
        if c > m {
            assert(list[m].id@ != id);
        }
    }
}

/// Why `owner` cannot pay `fee`, if it cannot.
pub open spec fn credit_error(list: Seq<Player>, owner: String, fee: u64) -> Option<AppError> {
    if !has_player(list, owner@) {
        Some(AppError::PlayerNotFound(owner))
    } else if list[player_index(list, owner@)].credits < fee as i64 {
        Some(AppError::Construction(ConstructionError::InsufficientCredits { needed: fee, available: list[player_index(list, owner@)].credits }))
    } else {
        None
    }
}

/// `new` is `old` with `fee` taken from the credits of `owner`.
pub open spec fn charged(old: Seq<Player>, new: Seq<Player>, owner: Seq<char>, fee: u64) -> bool {
    let k = player_index(old, owner);
    new == old.update(k, Player { credits: (old[k].credits - fee) as i64, ..old[k] })
}

/// Why the player cannot build from the station on `source`, if it cannot:
/// the first planet with that id must have a station the player owns.
pub open spec fn source_error(s: Seq<System>, source: String, owner: String, not_owner: ConstructionError) -> Option<AppError> {
    if !any_planet(s, id_is(source@)) {
        Some(AppError::Construction(ConstructionError::SourceStationNotFound(source)))
    } else {
        match first_where(s, id_is(source@)).status {
            PlanetStatus::Connected { station, .. } => if station.owner_id@ != owner@ {
                Some(AppError::Construction(not_owner))
            } else {
                None
            },
            _ => Some(AppError::Construction(ConstructionError::SourceStationNotFound(source))),
        }
    }
}

/// The site of the first planet with id `id`.
pub open spec fn site_of(s: Seq<System>, id: Seq<char>, site: ProjectSite) -> bool {
    let l = first_loc(s, id_is(id));
    &&& site.system_name == s[l.0].name
    &&& site.coordinates == s[l.0].coordinates
    &&& site.distance_ua_bits == planet_at(s, l.0, l.1).distance_ua_bits
}

/// The credits and goods of a construction were paid, or the error that
/// stopped the payment: credits are checked first, then goods are taken, and
/// the credits are charged only when all goods were taken.
pub open spec fn paid(
    s0: Seq<System>,
    s1: Seq<System>,
    p0: Seq<Player>,
    p1: Seq<Player>,
    owner: String,
    fee: u64,
    source: Seq<char>,
    goods: Map<Seq<char>, u64>,
    depot: Depot,
    r_is_ok: bool,
    r_err: Option<AppError>,
) -> bool {
    match credit_error(p0, owner, fee) {
        Some(e) => r_err == Some(e) && s1 == s0 && p1 == p0,
        None => {
            let gr: Result<(), AppError> = match r_err { Some(e) => Err(e), None => Ok(()) };
            &&& goods_taken(s0, s1, source, goods, depot, gr)
            &&& r_is_ok <==> r_err is None
            &&& r_is_ok ==> charged(p0, p1, owner@, fee)
            &&& !r_is_ok ==> p1 == p0
        },
    }
}

pub open spec fn err_of<T>(r: Result<T, AppError>) -> Option<AppError> {
    match r {
        Ok(_) => None,
        Err(e) => Some(e),
    }
}

impl GalaxyState {
    /// Where the first planet with id `id` lies.
    pub fn site(&self, id: &String) -> (r: ProjectSite)
        requires
            any_planet(self.systems@, id_is(id@)),
        ensures
            site_of(self.systems@, id@, r),
    {
        let (i, j) = self.locate_first(id, false).unwrap();
        ProjectSite {
            system_name: self.systems[i].name.clone(),
            coordinates: self.systems[i].coordinates,
            distance_ua_bits: self.systems[i].planets[j].distance_ua_bits,
        }
    }

    /// Takes `goods` from the depot of every connected planet with id `id`,
    /// in visiting order, stopping at the first that lacks some.
    pub fn take_goods(&mut self, id: &String, goods: &Inventory, depot: Depot) -> (r: Result<(), AppError>)
        requires
            old(self).wf(),
        ensures
            final(self).wf(),
            goods_taken(old(self).systems@, final(self).systems@, id@, goods@, depot, r),
    {
        let ghost s = self.systems@;
        let ghost lacking = lacking_at(id@, goods@, depot);
        let n = self.systems.len();
        let mut i: usize = 0;
        while i < n
            invariant
                n == s.len(),
                s == old(self).systems@,
                n == self.systems@.len(),
                i <= n,
                names_distinct(s),
                lacking == lacking_at(id@, goods@, depot),
                forall|k: int| 0 <= k < n ==> same_shape(#[trigger] self.systems@[k], s[k]),
                forall|i2: int, j2: int| loc_ok(s, i2, j2) && i2 < i ==> !lacking(#[trigger] planet_at(s, i2, j2)),
                taken_before(s, self.systems@, id@, goods@, depot, i as int, 0),
            decreases n - i,
        {
            let m = self.systems[i].planets.len();
            let mut j: usize = 0;
            while j < m
                invariant
                    n == s.len(),
                    s == old(self).systems@,
                    n == self.systems@.len(),
                    i < n,
                    m == s[i as int].planets@.len(),
                    j <= m,
                    names_distinct(s),
                    lacking == lacking_at(id@, goods@, depot),
                    forall|k: int| 0 <= k < n ==> same_shape(#[trigger] self.systems@[k], s[k]),
                    forall|i2: int, j2: int| loc_ok(s, i2, j2) && (i2 < i || (i2 == i && j2 < j)) ==> !lacking(#[trigger] planet_at(s, i2, j2)),
                    taken_before(s, self.systems@, id@, goods@, depot, i as int, j as int),
                decreases m - j,
            {
                proof {
                    assert(loc_ok(s, i as int, j as int));
                    assert(planet_at(self.systems@, i as int, j as int) == planet_at(s, i as int, j as int));
                }
                let ghost mid = self.systems@;
                if self.systems[i].planets[j].id == *id {
                    let shortfall = match &self.systems[i].planets[j].status {
                        PlanetStatus::Connected { station, space_elevator, .. } => match depot {
                            Depot::Station => station.inventory.first_shortfall(goods),
                            Depot::Warehouse => space_elevator.warehouse.inventory.first_shortfall(goods),
                        },
                        _ => None,
                    };
                    if let Some((good_name, requested, available)) = shortfall {
                        proof {
                            assert(lacking(planet_at(s, i as int, j as int)));
                            lemma_first_where_unique(s, lacking, i as int, j as int);
                        }
                        return Err(AppError::Construction(ConstructionError::InsufficientGoods { good_name, requested, available }));
                    }
                    let planet = &mut self.systems[i].planets[j];
                    match &mut planet.status {
                        PlanetStatus::Connected { station, space_elevator, .. } => match depot {
                            Depot::Station => station.inventory.deduct_all(goods),
                            Depot::Warehouse => space_elevator.warehouse.inventory.deduct_all(goods),
                        },
                        _ => {},
                    }
                }
                proof {
                    assert(!lacking(planet_at(s, i as int, j as int)));
                    assert(same_shape(self.systems@[i as int], mid[i as int]));
                    assert forall|k: int| 0 <= k < n && k != i implies self.systems@[k] == mid[k] by {}
                    assert forall|i2: int, j2: int| #[trigger] loc_ok(s, i2, j2) && !(i2 == i && j2 == j) implies planet_at(self.systems@, i2, j2) == planet_at(mid, i2, j2) by {}
                }
                j = j + 1;
            }
            i = i + 1;
        }
        proof {
            assert forall|a: int, b: int| 0 <= a < b < self.systems@.len() implies self.systems@[a].name@ != self.systems@[b].name@ by {
                assert(s[a].name@ != s[b].name@);
            }
            assert forall|i2: int, j2: int| loc_ok(s, i2, j2) implies !lacking(#[trigger] planet_at(s, i2, j2)) by {}
        }
        Ok(())
    }

    /// Checks that the first planet with id `source` has a station owned by
    /// `owner_id`; `not_owner` is the error when someone else owns it.
    fn check_source(&self, source: &String, owner_id: &String, not_owner: ConstructionError) -> (r: Result<(), AppError>)
        ensures
            err_of(r) == source_error(self.systems@, *source, *owner_id, not_owner),
    {
        match self.locate_first(source, false) {
            None => Err(AppError::Construction(ConstructionError::SourceStationNotFound(source.clone()))),
            Some((i, j)) => match &self.systems[i].planets[j].status {
                PlanetStatus::Connected { station, .. } => {
                    if station.owner_id != *owner_id {
                        Err(AppError::Construction(not_owner))
                    } else {
                        Ok(())
                    }
                },
                _ => Err(AppError::Construction(ConstructionError::SourceStationNotFound(source.clone()))),
            },
        }
    }
}

/// Checks that `owner_id` can pay `fee`; answers the player's position.
pub fn check_credits(players: &Vec<Player>, owner_id: &String, fee: u64) -> (r: Result<usize, AppError>)
    ensures
        err_of(r) == credit_error(players@, *owner_id, fee),
        r matches Ok(k) ==> k == player_index(players@, owner_id@) && is_first_player(players@, owner_id@, k as int),
{
    match find_player(players, owner_id) {
        None => Err(AppError::PlayerNotFound(owner_id.clone())),
        Some(k) => {
            proof {
                let c = player_index(players@, owner_id@);
                assert(is_first_player(players@, owner_id@, c));
                if c < k {
                    assert(players@[c].id@ != owner_id@);
                } else if c > k {
                    assert(players@[k as int].id@ != owner_id@);
                }
            }
            if players[k].credits < fee as i64 {
                Err(AppError::Construction(ConstructionError::InsufficientCredits { needed: fee, available: players[k].credits }))
            } else {
                Ok(k)
            }
        },
    }
}

/// Checks the credits, takes the goods, then charges the credits.
fn pay(
    galaxy: &mut GalaxyState,
    players: &mut Vec<Player>,
    owner_id: &String,
    fee: u64,
    source: &String,
    goods: &Inventory,
    depot: Depot,
) -> (r: Result<(), AppError>)
    requires
        old(galaxy).wf(),
        fee <= i64::MAX,
    ensures
        final(galaxy).wf(),
        paid(old(galaxy).systems@, final(galaxy).systems@, old(players)@, final(players)@, *owner_id, fee, source@, goods@, depot, r is Ok, err_of(r)),
{
    let k = check_credits(players, owner_id, fee)?;
    galaxy.take_goods(source, goods, depot)?;
    let c = players[k].credits;
    players[k].credits = c - fee as i64;
    Ok(())
}

/// Why a station cannot be installed on the first planet with id `target`:
/// it must exist and be settled without a station.
pub open spec fn install_target_error(s: Seq<System>, target: String) -> Option<AppError> {
    if !any_planet(s, id_is(target@)) {
        Some(AppError::Construction(ConstructionError::TargetPlanetNotFound(target)))
    } else {
        match first_where(s, id_is(target@)).status {
            PlanetStatus::Settled { .. } => None,
            PlanetStatus::Connected { .. } => Some(AppError::Construction(ConstructionError::TargetAlreadyConnected(target))),
            PlanetStatus::Uninhabited => Some(AppError::Construction(ConstructionError::TargetNotSettled(target))),
        }
    }
}

/// Why a settlement cannot be founded on the first planet with id
/// `target`: it must exist and be uninhabited.
pub open spec fn found_target_error(s: Seq<System>, target: String) -> Option<AppError> {
    if !any_planet(s, id_is(target@)) {
        Some(AppError::Construction(ConstructionError::TargetPlanetNotFound(target)))
    } else {
        match first_where(s, id_is(target@)).status {
            PlanetStatus::Uninhabited => None,
            _ => Some(AppError::Construction(ConstructionError::TargetNotUninhabited(target))),
        }
    }
}

/// Sites of the source and the target of a construction.
pub struct ConstructionRoute {
    pub source: ProjectSite,
    pub target: ProjectSite,
}

/// The outcome of a construction order from `source` to `target` with
/// `target_error`: the two planets must differ, then the source, the target
/// and the payment are checked in turn.
pub open spec fn route_planned(
    s0: Seq<System>,
    s1: Seq<System>,
    p0: Seq<Player>,
    p1: Seq<Player>,
    owner: String,
    source: String,
    target: String,
    target_error: Option<AppError>,
    fee: u64,
    goods: Map<Seq<char>, u64>,
    r: Result<ConstructionRoute, AppError>,
) -> bool {
    if source@ == target@ {
        r == Err::<ConstructionRoute, AppError>(AppError::Construction(ConstructionError::SamePlanet)) && s1 == s0 && p1 == p0
    } else if source_error(s0, source, owner, ConstructionError::NotSourceStationOwner) is Some {
        err_of(r) == source_error(s0, source, owner, ConstructionError::NotSourceStationOwner) && s1 == s0 && p1 == p0
    } else if target_error is Some {
        err_of(r) == target_error && s1 == s0 && p1 == p0
    } else {
        &&& paid(s0, s1, p0, p1, owner, fee, source@, goods, Depot::Station, r is Ok, err_of(r))
        &&& r matches Ok(route) ==> site_of(s0, source@, route.source) && site_of(s0, target@, route.target)
    }
}

/// Orders a station on a settled planet, built from the player's station on
/// the source planet: checks both planets and pays the fee and goods.
pub fn plan_install_station(
    galaxy: &mut GalaxyState,
    players: &mut Vec<Player>,
    config: &ConstructionConfig,
    owner_id: &String,
    body: &InstallStationRequest,
) -> (r: Result<ConstructionRoute, AppError>)
    requires
        old(galaxy).wf(),
        config.wf(),
    ensures
        final(galaxy).wf(),
        route_planned(
            old(galaxy).systems@,
            final(galaxy).systems@,
            old(players)@,
            final(players)@,
            *owner_id,
            body.source_planet_id,
            body.target_planet_id,
            install_target_error(old(galaxy).systems@, body.target_planet_id),
            config.station_install_fee,
            config.station_install_goods@,
            r,
        ),
{
    if body.source_planet_id == body.target_planet_id {
        return Err(AppError::Construction(ConstructionError::SamePlanet));
    }
    galaxy.check_source(&body.source_planet_id, owner_id, ConstructionError::NotSourceStationOwner)?;
    match galaxy.locate_first(&body.target_planet_id, false) {
        None => return Err(AppError::Construction(ConstructionError::TargetPlanetNotFound(body.target_planet_id.clone()))),
        Some((i, j)) => match &galaxy.systems[i].planets[j].status {
            PlanetStatus::Settled { .. } => {},
            PlanetStatus::Connected { .. } => return Err(AppError::Construction(ConstructionError::TargetAlreadyConnected(body.target_planet_id.clone()))),
            PlanetStatus::Uninhabited => return Err(AppError::Construction(ConstructionError::TargetNotSettled(body.target_planet_id.clone()))),
        },
    }
    let source = galaxy.site(&body.source_planet_id);
    let target = galaxy.site(&body.target_planet_id);
    pay(galaxy, players, owner_id, config.station_install_fee, &body.source_planet_id, &config.station_install_goods, Depot::Station)?;
    Ok(ConstructionRoute { source, target })
}

/// Every check of a settlement founding before its goods are summed passes:
/// distinct planets, the player's station at the source, an uninhabited
/// target, and enough credits.
pub open spec fn found_checks_pass(s: Seq<System>, p: Seq<Player>, config: ConstructionConfig, owner: String, body: FoundSettlementRequest) -> bool {
    &&& body.source_planet_id@ != body.target_planet_id@
    &&& source_error(s, body.source_planet_id, owner, ConstructionError::NotSourceStationOwner) is None
    &&& found_target_error(s, body.target_planet_id) is None
    &&& credit_error(p, owner, config.settlement_found_fee) is None
}

/// Whether a settlement founding would pass its checks and then overflow a
/// quantity when its extra goods are added to the founding goods.
pub fn found_settlement_overflows(
    galaxy: &GalaxyState,
    players: &Vec<Player>,
    config: &ConstructionConfig,
    owner_id: &String,
    body: &FoundSettlementRequest,
) -> (r: bool)
    ensures
        r == (found_checks_pass(galaxy.systems@, players@, *config, *owner_id, *body)
            && !addition_fits(config.settlement_found_goods@, body.extra_goods@)),
{
    if body.source_planet_id == body.target_planet_id {
        return false;
    }
    if galaxy.check_source(&body.source_planet_id, owner_id, ConstructionError::NotSourceStationOwner).is_err() {
        return false;
    }
    match galaxy.locate_first(&body.target_planet_id, false) {
        None => return false,
        Some((i, j)) => match &galaxy.systems[i].planets[j].status {
            PlanetStatus::Uninhabited => {},
            _ => return false,
        },
    }
    if check_credits(players, owner_id, config.settlement_found_fee).is_err() {
        return false;
    }
    !config.settlement_found_goods.addition_fits(&body.extra_goods)
}

/// Orders a settlement on an uninhabited planet, supplied from the player's
/// station on the source planet: checks both planets and pays the fee, the
/// founding goods and the extra goods sent along.
pub fn plan_found_settlement(
    galaxy: &mut GalaxyState,
    players: &mut Vec<Player>,
    config: &ConstructionConfig,
    owner_id: &String,
    body: &FoundSettlementRequest,
) -> (r: Result<ConstructionRoute, AppError>)
    requires
        old(galaxy).wf(),
        config.wf(),
        found_checks_pass(old(galaxy).systems@, old(players)@, *config, *owner_id, *body)
            ==> addition_fits(config.settlement_found_goods@, body.extra_goods@),
    ensures
        final(galaxy).wf(),
        route_planned(
            old(galaxy).systems@,
            final(galaxy).systems@,
            old(players)@,
            final(players)@,
            *owner_id,
            body.source_planet_id,
            body.target_planet_id,
            found_target_error(old(galaxy).systems@, body.target_planet_id),
            config.settlement_found_fee,
            after_addition(config.settlement_found_goods@, body.extra_goods@),
            r,
        ),
{
    if body.source_planet_id == body.target_planet_id {
        return Err(AppError::Construction(ConstructionError::SamePlanet));
    }
    galaxy.check_source(&body.source_planet_id, owner_id, ConstructionError::NotSourceStationOwner)?;
    match galaxy.locate_first(&body.target_planet_id, false) {
        None => return Err(AppError::Construction(ConstructionError::TargetPlanetNotFound(body.target_planet_id.clone()))),
        Some((i, j)) => match &galaxy.systems[i].planets[j].status {
            PlanetStatus::Uninhabited => {},
            _ => return Err(AppError::Construction(ConstructionError::TargetNotUninhabited(body.target_planet_id.clone()))),
        },
    }
    check_credits(players, owner_id, config.settlement_found_fee)?;
    let source = galaxy.site(&body.source_planet_id);
    let target = galaxy.site(&body.target_planet_id);
    let mut total = config.settlement_found_goods.duplicate();
    total.add_all(&body.extra_goods);
    pay(galaxy, players, owner_id, config.settlement_found_fee, &body.source_planet_id, &total, Depot::Station)?;
    Ok(ConstructionRoute { source, target })
}

/// Fee of a station upgrade.
pub open spec fn upgrade_fee(config: ConstructionConfig, t: StationUpgradeType) -> u64 {
    match t {
        StationUpgradeType::DockingBays => config.upgrade_docking_bay_fee,
        StationUpgradeType::MassDriverChannels => config.upgrade_mass_driver_fee,
        StationUpgradeType::Storage => config.upgrade_storage_fee,
    }
}

/// Goods of a station upgrade.
pub open spec fn upgrade_goods(config: ConstructionConfig, t: StationUpgradeType) -> Map<Seq<char>, u64> {
    match t {
        StationUpgradeType::DockingBays => config.upgrade_docking_bay_goods@,
        StationUpgradeType::MassDriverChannels => config.upgrade_mass_driver_goods@,
        StationUpgradeType::Storage => config.upgrade_storage_goods@,
    }
}

/// Project type of a station upgrade.
pub open spec fn upgrade_project_type(t: StationUpgradeType) -> ProjectType {
    match t {
        StationUpgradeType::DockingBays => ProjectType::UpgradeDockingBays,
        StationUpgradeType::MassDriverChannels => ProjectType::UpgradeMassDriverChannels,
        StationUpgradeType::Storage => ProjectType::UpgradeStorage,
    }
}

/// Why the player cannot upgrade the station on the first planet with id
/// `planet`: the player must own it, and adding channels needs a mass driver.
pub open spec fn upgrade_error(s: Seq<System>, planet: String, owner: String, t: StationUpgradeType) -> Option<AppError> {
    match source_error(s, planet, owner, ConstructionError::NotTargetStationOwner) {
        Some(e) => Some(e),
        None => match first_where(s, id_is(planet@)).status {
            PlanetStatus::Connected { station, .. } => if t == StationUpgradeType::MassDriverChannels && station.mass_driver is None {
                Some(AppError::Construction(ConstructionError::NoMassDriver))
            } else {
                None
            },
            _ => None,
        },
    }
}

/// Orders an upgrade of the player's station: checks the station and pays
/// the upgrade's fee and goods from the station.  Answers the project type.
pub fn plan_upgrade_station(
    galaxy: &mut GalaxyState,
    players: &mut Vec<Player>,
    config: &ConstructionConfig,
    owner_id: &String,
    body: &UpgradeStationRequest,
) -> (r: Result<ProjectType, AppError>)
    requires
        old(galaxy).wf(),
        config.wf(),
    ensures
        final(galaxy).wf(),
        match upgrade_error(old(galaxy).systems@, body.planet_id, *owner_id, body.upgrade_type) {
            Some(e) => r == Err::<ProjectType, AppError>(e) && final(galaxy).systems@ == old(galaxy).systems@ && final(players)@ == old(players)@,
            None => paid(old(galaxy).systems@, final(galaxy).systems@, old(players)@, final(players)@, *owner_id,
                upgrade_fee(*config, body.upgrade_type), body.planet_id@, upgrade_goods(*config, body.upgrade_type),
                Depot::Station, r is Ok, err_of(r)),
        },
        r matches Ok(t) ==> t == upgrade_project_type(body.upgrade_type),
{
    let (fee, goods, project_type) = match body.upgrade_type {
        StationUpgradeType::DockingBays => (config.upgrade_docking_bay_fee, &config.upgrade_docking_bay_goods, ProjectType::UpgradeDockingBays),
        StationUpgradeType::MassDriverChannels => (config.upgrade_mass_driver_fee, &config.upgrade_mass_driver_goods, ProjectType::UpgradeMassDriverChannels),
        StationUpgradeType::Storage => (config.upgrade_storage_fee, &config.upgrade_storage_goods, ProjectType::UpgradeStorage),
    };
    galaxy.check_source(&body.planet_id, owner_id, ConstructionError::NotTargetStationOwner)?;
    if body.upgrade_type == StationUpgradeType::MassDriverChannels {
        let (i, j) = galaxy.locate_first(&body.planet_id, false).unwrap();
        if let PlanetStatus::Connected { station, .. } = &galaxy.systems[i].planets[j].status {
            if station.mass_driver.is_none() {
                return Err(AppError::Construction(ConstructionError::NoMassDriver));
            }
        }
    }
    pay(galaxy, players, owner_id, fee, &body.planet_id, goods, Depot::Station)?;
    Ok(project_type)
}

/// Orders a new cabin for the space elevator under the player's station:
/// checks the station and pays the fee and the goods from the elevator's
/// warehouse.
pub fn plan_upgrade_elevator(
    galaxy: &mut GalaxyState,
    players: &mut Vec<Player>,
    config: &ConstructionConfig,
    owner_id: &String,
    body: &UpgradeElevatorRequest,
) -> (r: Result<(), AppError>)
    requires
        old(galaxy).wf(),
        config.wf(),
    ensures
        final(galaxy).wf(),
        match source_error(old(galaxy).systems@, body.planet_id, *owner_id, ConstructionError::NotTargetStationOwner) {
            Some(e) => r == Err::<(), AppError>(e) && final(galaxy).systems@ == old(galaxy).systems@ && final(players)@ == old(players)@,
            None => paid(old(galaxy).systems@, final(galaxy).systems@, old(players)@, final(players)@, *owner_id,
                config.upgrade_cabin_fee, body.planet_id@, config.upgrade_cabin_goods@, Depot::Warehouse, r is Ok, err_of(r)),
        },
{
    galaxy.check_source(&body.planet_id, owner_id, ConstructionError::NotTargetStationOwner)?;
    pay(galaxy, players, owner_id, config.upgrade_cabin_fee, &body.planet_id, &config.upgrade_cabin_goods, Depot::Warehouse)
}

/// The project recorded for an order, with a fresh UUID.
pub fn open_project(
    project_type: ProjectType,
    owner_id: &String,
    source_planet_id: &String,
    target_planet_id: &String,
    fee: u64,
    goods_consumed: Inventory,
    extra_goods: Inventory,
    status: ProjectStatus,
    created_at: u64,
    completion_at: u64,
    station_name: Option<String>,
    settlement_name: Option<String>,
) -> (r: ConstructionProject)
    ensures
        r.id & 0xF000_0000_0000_0000_0000u128 == 0x4000_0000_0000_0000_0000u128,
        r.owner_id == *owner_id,
        r.project_type == project_type,
        r.source_planet_id == *source_planet_id,
        r.target_planet_id == *target_planet_id,
        r.fee == fee,
        r.goods_consumed == goods_consumed,
        r.extra_goods == extra_goods,
        r.status == status,
        r.created_at == created_at,
        r.completion_at == completion_at,
        r.station_name == station_name,
        r.settlement_name == settlement_name,
{
    ConstructionProject {
        id: new_uuid(),
        owner_id: owner_id.clone(),
        project_type,
        source_planet_id: source_planet_id.clone(),
        target_planet_id: target_planet_id.clone(),
        fee,
        goods_consumed,
        extra_goods,
        status,
        created_at,
        completion_at,
        station_name,
        settlement_name,
    }
}

/// The project belongs to `owner`.
pub open spec fn owned_project(list: Seq<ConstructionProject>, owner: Seq<char>) -> spec_fn(int) -> bool {
    |k: int| list[k].owner_id@ == owner
}

/// Positions of the projects of `owner_id`.
pub fn list_projects(list: &Vec<ConstructionProject>, owner_id: &String) -> (r: Vec<usize>)
    ensures
        is_selection(r@, list@.len() as int, owned_project(list@, owner_id@)),
{
    let ghost keep = owned_project(list@, owner_id@);
    let n = list.len();
    let mut out: Vec<usize> = Vec::new();
    let mut k: usize = 0;
    while k < n
        invariant
            n == list@.len(),
            k <= n,
            keep == owned_project(list@, owner_id@),
            is_selection(out@, k as int, keep),
        decreases n - k,
    {
        proof {
            lemma_selection_step(out@, k as int, keep);
        }
        if list[k].owner_id == *owner_id {
            out.push(k);
        }
        k = k + 1;
    }
    out
}

/// The project with id `id` when `owner_id` owns it; a project of someone
/// else is reported as not found.
pub fn get_project<'a>(list: &'a Vec<ConstructionProject>, id: u128, owner_id: &String) -> (r: Result<&'a ConstructionProject, AppError>)
    ensures
        r matches Ok(p) ==> exists|k: int| 0 <= k < list@.len() && list@[k].id == id && (forall|m: int| 0 <= m < k ==> #[trigger] list@[m].id != id) && *p == list@[k] && p.owner_id@ == owner_id@,
        r matches Err(e) ==> e matches AppError::Construction(ConstructionError::ProjectNotFound(n)) && n@ == uuid_text(id),
        r is Err <==> forall|k: int| 0 <= k < list@.len() && list@[k].id == id && (forall|m: int| 0 <= m < k ==> #[trigger] list@[m].id != id) ==> list@[k].owner_id@ != owner_id@,
{
    let n = list.len();
    let mut k: usize = 0;
    while k < n
        invariant
            n == list@.len(),
            k <= n,
            forall|m: int| 0 <= m < k ==> #[trigger] list@[m].id != id,
        decreases n - k,
    {
        if list[k].id == id {
            if list[k].owner_id != *owner_id {
                proof {
                    assert forall|k2: int| 0 <= k2 < list@.len() && list@[k2].id == id && (forall|m: int| 0 <= m < k2 ==> #[trigger] list@[m].id != id) implies list@[k2].owner_id@ != owner_id@ by {
                        if k2 > k {
                            assert(list@[k as int].id != id);
                        }
                    }
                }
                return Err(AppError::Construction(ConstructionError::ProjectNotFound(uuid_string(id))));
            }
            return Ok(&list[k]);
        }
        k = k + 1;
    }
    Err(AppError::Construction(ConstructionError::ProjectNotFound(uuid_string(id))))
}


/// No two projects share an id, as in a map keyed by id.
pub open spec fn project_ids_distinct(s: Seq<ConstructionProject>) -> bool {
    forall|a: int, b: int| 0 <= a < b < s.len() ==> s[a].id != s[b].id
}

/// Position of the first project with id `id`.
pub open spec fn is_first_project(list: Seq<ConstructionProject>, id: u128, k: int) -> bool {
    &&& 0 <= k < list.len()
    &&& list[k].id == id
    &&& forall|m: int| 0 <= m < k ==> #[trigger] list[m].id != id
}

/// Position of the first project with id `id`.
pub fn find_project(list: &Vec<ConstructionProject>, id: u128) -> (r: Option<usize>)
    ensures
        r is None <==> forall|k: int| 0 <= k < list@.len() ==> #[trigger] list@[k].id != id,
        r matches Some(k) ==> is_first_project(list@, id, k as int),
{
    let n = list.len();
    let mut k: usize = 0;
    while k < n
        invariant
            n == list@.len(),
            k <= n,
            forall|m: int| 0 <= m < k ==> #[trigger] list@[m].id != id,
        decreases n - k,
    {
        if list[k].id == id {
            return Some(k);
        }
        k = k + 1;
    }
    None
}

/// Stores `item` as a map keyed by id does: it replaces the first project with the
/// same id, or else is appended.  Ids that were distinct stay distinct.
pub fn insert_project(list: &mut Vec<ConstructionProject>, item: ConstructionProject)
    ensures
        project_ids_distinct(old(list)@) ==> project_ids_distinct(final(list)@),
        forall|k: int| is_first_project(old(list)@, item.id, k) ==> final(list)@ == old(list)@.update(k, item),
        (forall|k: int| 0 <= k < old(list)@.len() ==> #[trigger] old(list)@[k].id != item.id) ==> final(list)@ == old(list)@.push(item),
{
    match find_project(list, item.id) {
        Some(k) => {
            proof {
                assert forall|k2: int| is_first_project(old(list)@, item.id, k2) implies k2 == k by {
                    if k2 < k {
                        assert(old(list)@[k2].id != item.id);
                    } else if k2 > k {
                        assert(old(list)@[k as int].id != item.id);
                    }
                }
            }
            list.set(k, item);
            proof {
                assert forall|a: int, b: int| project_ids_distinct(old(list)@) && 0 <= a < b < list@.len() implies list@[a].id != list@[b].id by {
                    if a != k && b != k {
                        assert(old(list)@[a].id != old(list)@[b].id);
                    }
                }
            }
        },
        None => {
            list.push(item);
            proof {
                assert forall|a: int, b: int| project_ids_distinct(old(list)@) && 0 <= a < b < list@.len() implies list@[a].id != list@[b].id by {
                    if b < old(list)@.len() {
                        assert(old(list)@[a].id != old(list)@[b].id);
                    } else {
                        assert(old(list)@[a].id != item.id);
                    }
                }
            }
        },
    }
}


/// The project `p` once complete.
pub open spec fn completed(p: ConstructionProject) -> ConstructionProject {
    ConstructionProject { status: ProjectStatus::Complete, ..p }
}

fn mark_complete(p: &mut ConstructionProject)
    ensures
        *final(p) == completed(*old(p)),
{
    p.status = ProjectStatus::Complete;
}

/// Completes the first project with id `id`, when it is not complete yet,
/// and answers the notification for its owner; otherwise nothing changes.
pub fn complete_project(list: &mut Vec<ConstructionProject>, id: u128) -> (r: Option<ConstructionWebhookPayload>)
    ensures
        project_ids_distinct(old(list)@) ==> project_ids_distinct(final(list)@),
        (forall|k: int| 0 <= k < old(list)@.len() ==> #[trigger] old(list)@[k].id != id) ==> r is None && final(list)@ == old(list)@,
        forall|k: int| is_first_project(old(list)@, id, k) ==> if old(list)@[k].status == ProjectStatus::Complete {
            r is None && final(list)@ == old(list)@
        } else {
            &&& final(list)@ == old(list)@.update(k, completed(old(list)@[k]))
            &&& r == Some(ConstructionWebhookPayload::ConstructionComplete {
                project_id: id,
                project_type: old(list)@[k].project_type,
                target_planet_id: old(list)@[k].target_planet_id,
            })
        },
{
    let k = match find_project(list, id) {
        Some(k) => k,
        None => return None,
    };
    proof {
        assert forall|k2: int| is_first_project(old(list)@, id, k2) implies k2 == k by {
            if k2 < k {
                assert(old(list)@[k2].id != id);
            } else if k2 > k {
                assert(old(list)@[k as int].id != id);
            }
        }
    }
    if list[k].status == ProjectStatus::Complete {
        return None;
    }
    let payload = ConstructionWebhookPayload::ConstructionComplete {
        project_id: id,
        project_type: list[k].project_type,
        target_planet_id: list[k].target_planet_id.clone(),
    };
    mark_complete(&mut list[k]);
    proof {
        assert(list@ =~= old(list)@.update(k as int, completed(old(list)@[k as int])));
        assert forall|a: int, b: int| project_ids_distinct(old(list)@) && 0 <= a < b < list@.len() implies list@[a].id != list@[b].id by {
            assert(old(list)@[a].id != old(list)@[b].id);
        }
    }
    Some(payload)
}


/// The project recorded for a station installation ordered with `body`.
pub fn install_project(config: &ConstructionConfig, owner_id: &String, body: &InstallStationRequest, now: u64, completion_at: u64) -> (r: ConstructionProject)
    ensures
        r.id & 0xF000_0000_0000_0000_0000u128 == 0x4000_0000_0000_0000_0000u128,
        r.owner_id == *owner_id,
        r.created_at == now,
        r.completion_at == completion_at,
        r.project_type == ProjectType::InstallStation,
        r.source_planet_id == body.source_planet_id,
        r.target_planet_id == body.target_planet_id,
        r.fee == config.station_install_fee,
        r.goods_consumed@ == config.station_install_goods@,
        r.extra_goods@ == Map::<Seq<char>, u64>::empty(),
        r.status == ProjectStatus::InTransit,
        r.station_name == Some(body.station_name),
        r.settlement_name is None,
{
    open_project(
        ProjectType::InstallStation,
        owner_id,
        &body.source_planet_id,
        &body.target_planet_id,
        config.station_install_fee,
        config.station_install_goods.duplicate(),
        Inventory::new(),
        ProjectStatus::InTransit,
        now,
        completion_at,
        Some(body.station_name.clone()),
        None,
    )
}

/// The project recorded for a settlement founded with `body`: the founding
/// goods as consumed and the body's extra goods beside them.
pub fn found_project(config: &ConstructionConfig, owner_id: &String, body: &FoundSettlementRequest, now: u64, completion_at: u64) -> (r: ConstructionProject)
    ensures
        r.id & 0xF000_0000_0000_0000_0000u128 == 0x4000_0000_0000_0000_0000u128,
        r.owner_id == *owner_id,
        r.created_at == now,
        r.completion_at == completion_at,
        r.project_type == ProjectType::FoundSettlement,
        r.source_planet_id == body.source_planet_id,
        r.target_planet_id == body.target_planet_id,
        r.fee == config.settlement_found_fee,
        r.goods_consumed@ == config.settlement_found_goods@,
        r.extra_goods@ == body.extra_goods@,
        r.status == ProjectStatus::InTransit,
        r.station_name == Some(body.station_name),
        r.settlement_name == Some(body.settlement_name),
{
    open_project(
        ProjectType::FoundSettlement,
        owner_id,
        &body.source_planet_id,
        &body.target_planet_id,
        config.settlement_found_fee,
        config.settlement_found_goods.duplicate(),
        body.extra_goods.duplicate(),
        ProjectStatus::InTransit,
        now,
        completion_at,
        Some(body.station_name.clone()),
        Some(body.settlement_name.clone()),
    )
}

/// The project recorded for a station upgrade ordered with `body`: the
/// upgrade's type, fee and goods, building on the station's own planet.
pub fn upgrade_project(config: &ConstructionConfig, owner_id: &String, body: &UpgradeStationRequest, now: u64, completion_at: u64) -> (r: ConstructionProject)
    ensures
        r.id & 0xF000_0000_0000_0000_0000u128 == 0x4000_0000_0000_0000_0000u128,
        r.owner_id == *owner_id,
        r.created_at == now,
        r.completion_at == completion_at,
        r.project_type == upgrade_project_type(body.upgrade_type),
        r.source_planet_id == body.planet_id,
        r.target_planet_id == body.planet_id,
        r.fee == upgrade_fee(*config, body.upgrade_type),
        r.goods_consumed@ == upgrade_goods(*config, body.upgrade_type),
        r.extra_goods@ == Map::<Seq<char>, u64>::empty(),
        r.status == ProjectStatus::Building,
        r.station_name is None,
        r.settlement_name is None,
{
    let (project_type, fee, goods) = match body.upgrade_type {
        StationUpgradeType::DockingBays => (ProjectType::UpgradeDockingBays, config.upgrade_docking_bay_fee, config.upgrade_docking_bay_goods.duplicate()),
        StationUpgradeType::MassDriverChannels => (ProjectType::UpgradeMassDriverChannels, config.upgrade_mass_driver_fee, config.upgrade_mass_driver_goods.duplicate()),
        StationUpgradeType::Storage => (ProjectType::UpgradeStorage, config.upgrade_storage_fee, config.upgrade_storage_goods.duplicate()),
    };
    open_project(
        project_type,
        owner_id,
        &body.planet_id,
        &body.planet_id,
        fee,
        goods,
        Inventory::new(),
        ProjectStatus::Building,
        now,
        completion_at,
        None,
        None,
    )
}

/// The project recorded for a new elevator cabin ordered with `body`.
pub fn elevator_project(config: &ConstructionConfig, owner_id: &String, body: &UpgradeElevatorRequest, now: u64, completion_at: u64) -> (r: ConstructionProject)
    ensures
        r.id & 0xF000_0000_0000_0000_0000u128 == 0x4000_0000_0000_0000_0000u128,
        r.owner_id == *owner_id,
        r.created_at == now,
        r.completion_at == completion_at,
        r.project_type == ProjectType::UpgradeElevatorCabins,
        r.source_planet_id == body.planet_id,
        r.target_planet_id == body.planet_id,
        r.fee == config.upgrade_cabin_fee,
        r.goods_consumed@ == config.upgrade_cabin_goods@,
        r.extra_goods@ == Map::<Seq<char>, u64>::empty(),
        r.status == ProjectStatus::Building,
        r.station_name is None,
        r.settlement_name is None,
{
    open_project(
        ProjectType::UpgradeElevatorCabins,
        owner_id,
        &body.planet_id,
        &body.planet_id,
        config.upgrade_cabin_fee,
        config.upgrade_cabin_goods.duplicate(),
        Inventory::new(),
        ProjectStatus::Building,
        now,
        completion_at,
        None,
        None,
    )
}

} // verus!
