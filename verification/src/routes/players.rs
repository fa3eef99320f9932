//! Players: authentication, listing, reading and updating.
use vstd::prelude::*;
use vstd::string::StrSliceExecFns;

use crate::error::AppError;
use crate::models::{Player, PlayerPublic, UpdatePlayerRequest};

verus! {

/// The token of an `Authorization` header of the form `Bearer <token>`.
pub open spec fn bearer_token(header: Seq<char>) -> Option<Seq<char>> {
    if header.len() >= 7 && header.take(7) == seq!['B', 'e', 'a', 'r', 'e', 'r', ' '] {
        Some(header.skip(7))
    } else {
        None
    }
}

/// Position of the first player with id `id`.
pub open spec fn is_first_player(list: Seq<Player>, id: Seq<char>, k: int) -> bool {
    &&& 0 <= k < list.len()
    &&& list[k].id@ == id
    &&& forall|m: int| 0 <= m < k ==> #[trigger] list[m].id@ != id
}

/// Some player has id `id`.
pub open spec fn has_player(list: Seq<Player>, id: Seq<char>) -> bool {
    exists|k: int| 0 <= k < list.len() && #[trigger] list[k].id@ == id
}

/// What others see of `p`.
pub open spec fn public_view(p: Player) -> PlayerPublic {
    PlayerPublic { id: p.id, name: p.name, credits: p.credits }
}

fn bearer_char(k: usize) -> (c: char)
    requires
        k < 7,
    ensures
        c == seq!['B', 'e', 'a', 'r', 'e', 'r', ' '][k as int],
{
    if k == 0 {
        'B'
    } else if k == 1 {
        'e'
    } else if k == 2 {
        'a'
    } else if k == 3 {
        'r'
    } else if k == 4 {
        'e'
    } else if k == 5 {
        'r'
    } else {
        ' '
    }
}

/// The token of an `Authorization` header of the form `Bearer <token>`.
pub fn parse_bearer(header: &str) -> (r: Option<String>)
    ensures
        match bearer_token(header@) {
            Some(t) => r matches Some(s) && s@ == t,
            None => r is None,
        },
{
    let ghost p = seq!['B', 'e', 'a', 'r', 'e', 'r', ' '];
    let n = header.unicode_len();
    if n < 7 {
        return None;
    }
    let mut k: usize = 0;
    while k < 7
        invariant
            n == header@.len(),
            n >= 7,
            k <= 7,
            p == seq!['B', 'e', 'a', 'r', 'e', 'r', ' '],
            forall|m: int| 0 <= m < k ==> #[trigger] header@[m] == p[m],
        decreases 7 - k,
    {
        if header.get_char(k) != bearer_char(k) {
            proof {
                assert(header@.take(7)[k as int] != p[k as int]);
            }
            return None;
        }
        k = k + 1;
    }
    proof {
        assert(header@.take(7) =~= p);
    }
    let token = header.substring_char(7, n);
    Some(token.to_owned())
}

/// Position of the first player with id `id`.
pub fn find_player(list: &Vec<Player>, id: &String) -> (r: Option<usize>)
    ensures
        r is None <==> !has_player(list@, id@),
        r matches Some(k) ==> is_first_player(list@, id@, k as int),
{
    let n = list.len();
    let mut k: usize = 0;
    while k < n
        invariant
            n == list@.len(),
            k <= n,
            forall|m: int| 0 <= m < k ==> #[trigger] list@[m].id@ != id@,
        decreases n - k,
    {
        if list[k].id == *id {
            return Some(k);
        }
        k = k + 1;
    }
    None
}

/// The player whose API key is the bearer token of the `Authorization`
/// header; a missing header, another scheme or an unknown key is
/// unauthorized.
pub fn authenticate_player(list: &Vec<Player>, header: Option<&str>) -> (r: Result<usize, AppError>)
    ensures
        r matches Ok(k) ==> {
            &&& k < list@.len()
            &&& header matches Some(h)
            &&& bearer_token(h@) matches Some(t)
            &&& list@[k as int].api_key@ == t
            &&& forall|m: int| 0 <= m < k ==> #[trigger] list@[m].api_key@ != t
        },
        r matches Err(e) ==> e is Unauthorized,
        r is Err <==> match header {
            None => true,
            Some(h) => match bearer_token(h@) {
                None => true,
                Some(t) => forall|m: int| 0 <= m < list@.len() ==> #[trigger] list@[m].api_key@ != t,
            },
        },
{
    let h = match header {
        Some(h) => h,
        None => return Err(AppError::Unauthorized),
    };
    let token = match parse_bearer(h) {
        Some(t) => t,
        None => return Err(AppError::Unauthorized),
    };
    let n = list.len();
    let mut k: usize = 0;
    while k < n
        invariant
            n == list@.len(),
            k <= n,
            header == Some(h),
            bearer_token(h@) == Some(token@),
            forall|m: int| 0 <= m < k ==> #[trigger] list@[m].api_key@ != token@,
        decreases n - k,
    {
        if list[k].api_key == token {
            return Ok(k);
        }
        k = k + 1;
    }
    Err(AppError::Unauthorized)
}

/// Whether the `Authorization` header carries the administrator's token.
pub fn authorize_admin(header: Option<&str>, admin_token: &String) -> (r: Result<(), AppError>)
    ensures
        r is Ok <==> (header matches Some(h) && bearer_token(h@) == Some(admin_token@)),
        r matches Err(e) ==> e is Unauthorized,
{
    let h = match header {
        Some(h) => h,
        None => return Err(AppError::Unauthorized),
    };
    match parse_bearer(h) {
        Some(t) => {
            if t == *admin_token {
                Ok(())
            } else {
                Err(AppError::Unauthorized)
            }
        },
        None => Err(AppError::Unauthorized),
    }
}

/// The public view of every player, in order.
pub fn list_players(list: &Vec<Player>) -> (r: Vec<PlayerPublic>)
    ensures
        r@.len() == list@.len(),
        forall|k: int| 0 <= k < list@.len() ==> #[trigger] r@[k] == public_view(list@[k]),
{
    let n = list.len();
    let mut out: Vec<PlayerPublic> = Vec::new();
    let mut k: usize = 0;
    while k < n
        invariant
            n == list@.len(),
            k <= n,
            out@.len() == k,
            forall|m: int| 0 <= m < k ==> #[trigger] out@[m] == public_view(list@[m]),
        decreases n - k,
    {
        out.push(PlayerPublic::from(&list[k]));
        k = k + 1;
    }
    out
}

/// The public view of the player with id `player_id`.
pub fn get_player(list: &Vec<Player>, player_id: &String) -> (r: Result<PlayerPublic, AppError>)
    ensures
        r is Err <==> !has_player(list@, player_id@),
        r matches Err(e) ==> e matches AppError::PlayerNotFound(n) && n@ == player_id@,
        r matches Ok(p) ==> exists|k: int| is_first_player(list@, player_id@, k) && p == public_view(list@[k]),
{
    match find_player(list, player_id) {
        Some(k) => Ok(PlayerPublic::from(&list[k])),
        None => Err(AppError::PlayerNotFound(player_id.clone())),
    }
}

/// A player changes its own callback URL; changing another player's
/// record is forbidden.
pub fn update_player(list: &mut Vec<Player>, auth_id: &String, player_id: &String, body: UpdatePlayerRequest) -> (r: Result<PlayerPublic, AppError>)
    ensures
        player_ids_distinct(old(list)@) ==> player_ids_distinct(final(list)@),
        r is Err ==> final(list)@ == old(list)@,
        auth_id@ != player_id@ <==> r matches Err(AppError::Forbidden),
        auth_id@ == player_id@ && !has_player(old(list)@, player_id@) <==> (r matches Err(AppError::PlayerNotFound(n))
            && n@ == player_id@),
        auth_id@ == player_id@ && has_player(old(list)@, player_id@) ==> exists|k: int| {
            &&& is_first_player(old(list)@, player_id@, k)
            &&& final(list)@ == old(list)@.update(k, Player {
                callback_url: match body.callback_url { Some(u) => u, None => old(list)@[k].callback_url },
                ..old(list)@[k]
            })
            &&& r == Ok::<PlayerPublic, AppError>(public_view(old(list)@[k]))
        },
{
    if *auth_id != *player_id {
        return Err(AppError::Forbidden);
    }
    let k = match find_player(list, player_id) {
        Some(k) => k,
        None => return Err(AppError::PlayerNotFound(player_id.clone())),
    };
    if let Some(url) = body.callback_url {
        list[k].callback_url = url;
    }
    Ok(PlayerPublic::from(&list[k]))
}


/// No two players share an id, as in a map keyed by id.
pub open spec fn player_ids_distinct(s: Seq<Player>) -> bool {
    forall|a: int, b: int| 0 <= a < b < s.len() ==> s[a].id@ != s[b].id@
}

/// Stores `item` as a map keyed by id does: it replaces the first player with the
/// same id, or else is appended.  Ids that were distinct stay distinct.
pub fn insert_player(list: &mut Vec<Player>, item: Player)
    ensures
        player_ids_distinct(old(list)@) ==> player_ids_distinct(final(list)@),
        forall|k: int| is_first_player(old(list)@, item.id@, k) ==> final(list)@ == old(list)@.update(k, item),
        (forall|k: int| 0 <= k < old(list)@.len() ==> #[trigger] old(list)@[k].id@ != item.id@) ==> final(list)@ == old(list)@.push(item),
{
    match find_player(list, &item.id) {
        Some(k) => {
            proof {
                assert forall|k2: int| is_first_player(old(list)@, item.id@, k2) implies k2 == k by {
                    if k2 < k {
                        assert(old(list)@[k2].id@ != item.id@);
                    } else if k2 > k {
                        assert(old(list)@[k as int].id@ != item.id@);
                    }
                }
            }
            list.set(k, item);
            proof {
                assert forall|a: int, b: int| player_ids_distinct(old(list)@) && 0 <= a < b < list@.len() implies list@[a].id@ != list@[b].id@ by {
                    if a != k && b != k {
                        assert(old(list)@[a].id@ != old(list)@[b].id@);
                    }
                }
            }
        },
        None => {
            list.push(item);
            proof {
                assert forall|a: int, b: int| player_ids_distinct(old(list)@) && 0 <= a < b < list@.len() implies list@[a].id@ != list@[b].id@ by {
                    if b < old(list)@.len() {
                        assert(old(list)@[a].id@ != old(list)@[b].id@);
                    } else {
                        assert(old(list)@[a].id@ != item.id@);
                    }
                }
            }
        },
    }
}

} // verus!
