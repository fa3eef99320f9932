use vstd::prelude::*;

verus! {

/// A trading company taking part in the game.
pub struct Player {
    pub id: String,
    pub name: String,
    pub credits: i64,
    pub initial_credits: i64,
    pub api_key: String,
    pub callback_url: String,
}

/// A line of the leaderboard.
pub struct LeaderboardEntry {
    pub player_id: String,
    pub player_name: String,
    pub profit: i64,
}

/// What other players may see of a player.
pub struct PlayerPublic {
    pub id: String,
    pub name: String,
    pub credits: i64,
}

impl<'a> From<&'a Player> for PlayerPublic {
    fn from(player: &'a Player) -> (r: PlayerPublic) {
        PlayerPublic { id: player.id.clone(), name: player.name.clone(), credits: player.credits }
    }
}

impl<'a> vstd::std_specs::convert::FromSpecImpl<&'a Player> for PlayerPublic {
    open spec fn obeys_from_spec() -> bool {
        true
    }

    open spec fn from_spec(player: &'a Player) -> PlayerPublic {
        PlayerPublic { id: player.id, name: player.name, credits: player.credits }
    }
}

/// Body of a request in which a player changes its own record.
pub struct UpdatePlayerRequest {
    pub callback_url: Option<String>,
}

} // verus!
