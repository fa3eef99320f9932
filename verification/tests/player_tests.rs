use offworld_trading_manager::config::AdminConfig;
use offworld_trading_manager::error::AppError;
use offworld_trading_manager::models::{Player, UpdatePlayerRequest};
use offworld_trading_manager::routes::players::{
    authenticate_player, authorize_admin, get_player, list_players, update_player,
};

const ALPHA_TOKEN: &str = "alpha-api-key";
const BETA_TOKEN: &str = "beta-api-key";

fn player(id: &str, name: &str, credits: i64, key: &str) -> Player {
    Player {
        id: id.to_string(),
        name: name.to_string(),
        credits,
        initial_credits: credits,
        api_key: key.to_string(),
        callback_url: format!("http://localhost:9000/{}", id),
    }
}

fn seed_players() -> Vec<Player> {
    vec![
        player("alpha-team", "Alpha Trading Co.", 100000, ALPHA_TOKEN),
        player("beta-team", "Beta Logistics", 80000, BETA_TOKEN),
        player("gamma-team", "Gamma Freight", 50000, "gamma-api-key"),
    ]
}

fn admin_auth() -> String {
    format!("Bearer {}", AdminConfig::default().token)
}

fn player_auth(token: &str) -> String {
    format!("Bearer {}", token)
}

#[test]
fn test_list_players() {
    let players = seed_players();
    let header = admin_auth();
    assert!(authorize_admin(Some(header.as_str()), &AdminConfig::default().token).is_ok());
    let public = list_players(&players);
    assert_eq!(public.len(), 3);
}

#[test]
fn test_get_player_admin() {
    let players = seed_players();
    let header = admin_auth();
    assert!(authorize_admin(Some(header.as_str()), &AdminConfig::default().token).is_ok());
    let p = get_player(&players, &"alpha-team".to_string()).ok().unwrap();
    assert_eq!(p.id, "alpha-team");
    assert_eq!(p.name, "Alpha Trading Co.");
    assert_eq!(p.credits, 100000);
}

#[test]
fn test_get_player() {
    let players = seed_players();
    let header = player_auth(ALPHA_TOKEN);
    let k = authenticate_player(&players, Some(header.as_str())).ok().unwrap();
    assert_eq!(players[k].id, "alpha-team");
    let p = get_player(&players, &"alpha-team".to_string()).ok().unwrap();
    assert_eq!(p.id, "alpha-team");
    assert_eq!(p.name, "Alpha Trading Co.");
    assert_eq!(p.credits, 100000);
}

#[test]
fn test_get_player_not_found() {
    let players = seed_players();
    let header = player_auth(ALPHA_TOKEN);
    assert!(authenticate_player(&players, Some(header.as_str())).is_ok());
    let e = get_player(&players, &"nonexistent".to_string()).err().unwrap();
    assert_eq!(e.status_code(), 404);
    assert!(matches!(e, AppError::PlayerNotFound(ref n) if n == "nonexistent"));
}

#[test]
fn test_update_callback_url() {
    let mut players = seed_players();
    let header = player_auth(ALPHA_TOKEN);
    let k = authenticate_player(&players, Some(header.as_str())).ok().unwrap();
    let auth_id = players[k].id.clone();
    let update = UpdatePlayerRequest { callback_url: Some("http://localhost:9999/new-webhook".to_string()) };
    let p = update_player(&mut players, &auth_id, &"alpha-team".to_string(), update).ok().unwrap();
    assert_eq!(p.id, "alpha-team");
    assert_eq!(players[0].callback_url, "http://localhost:9999/new-webhook");
}

#[test]
fn test_update_requires_auth() {
    let players = seed_players();
    let e = authenticate_player(&players, None).err().unwrap();
    assert_eq!(e.status_code(), 401);
}

#[test]
fn test_update_invalid_api_key() {
    let players = seed_players();
    let e = authenticate_player(&players, Some("Bearer wrong-key")).err().unwrap();
    assert_eq!(e.status_code(), 401);
}

#[test]
fn test_update_forbidden_wrong_player() {
    let mut players = seed_players();
    let header = player_auth(BETA_TOKEN);
    let k = authenticate_player(&players, Some(header.as_str())).ok().unwrap();
    let auth_id = players[k].id.clone();
    let update = UpdatePlayerRequest { callback_url: Some("http://localhost:9999/new-webhook".to_string()) };
    let e = update_player(&mut players, &auth_id, &"alpha-team".to_string(), update).err().unwrap();
    assert_eq!(e.status_code(), 403);
    assert_eq!(players[0].callback_url, "http://localhost:9000/alpha-team");
}

#[test]
fn update_without_url_keeps_record() {
    let mut players = seed_players();
    let update = UpdatePlayerRequest { callback_url: None };
    let p = update_player(&mut players, &"gamma-team".to_string(), &"gamma-team".to_string(), update).ok().unwrap();
    assert_eq!(p.credits, 50000);
    assert_eq!(players[2].callback_url, "http://localhost:9000/gamma-team");
}

#[test]
fn update_unknown_player_of_itself() {
    let mut players = seed_players();
    let update = UpdatePlayerRequest { callback_url: None };
    let e = update_player(&mut players, &"delta".to_string(), &"delta".to_string(), update).err().unwrap();
    assert!(matches!(e, AppError::PlayerNotFound(ref n) if n == "delta"));
}

#[test]
fn bearer_scheme_is_required() {
    let players = seed_players();
    assert!(authenticate_player(&players, Some(ALPHA_TOKEN)).is_err());
    assert!(authenticate_player(&players, Some("Basic alpha-api-key")).is_err());
    assert!(authenticate_player(&players, Some("Bearer")).is_err());
    let header = player_auth(BETA_TOKEN);
    let k = authenticate_player(&players, Some(header.as_str())).ok().unwrap();
    assert_eq!(k, 1);
}

#[test]
fn admin_token_checked() {
    let token = AdminConfig::default().token;
    assert_eq!(token, "admin-secret-token");
    assert!(authorize_admin(Some("Bearer admin-secret-token"), &token).is_ok());
    assert!(authorize_admin(Some("Bearer alpha-api-key"), &token).is_err());
    assert!(authorize_admin(None, &token).is_err());
}
