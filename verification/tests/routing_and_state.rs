use tcp_gateway::routing::{
    choose_direct_route, plan_direct_route, plan_route, Config, GatewayConfig, Server,
    ServerStatus, ServiceAvailability,
};
use tcp_gateway::settings::{init_env, load_env, redis_key_or_default, SettingsError};
use tcp_gateway::state::{init_redis_client, open_gateway, GatewayState};

fn config(pct: u8) -> GatewayConfig {
    GatewayConfig {
        primary_addr: "primary:80".to_string(),
        canary_addr: "canary:80".to_string(),
        canary_percentage: pct,
    }
}

fn status(p: bool, c: bool) -> ServerStatus {
    ServerStatus { primary_online: p, canary_online: c }
}

#[test]
fn both_online_splits_by_percentage() {
    let c = config(30);
    assert_eq!(plan_route(&c, status(true, true), 29), Some(Server::Canary));
    assert_eq!(plan_route(&c, status(true, true), 30), Some(Server::Primary));
    assert_eq!(plan_route(&config(0), status(true, true), 0), Some(Server::Primary));
    assert_eq!(plan_route(&config(100), status(true, true), 99), Some(Server::Canary));
}

#[test]
fn one_online_gets_everything() {
    assert_eq!(plan_route(&config(100), status(true, false), 0), Some(Server::Primary));
    assert_eq!(plan_route(&config(0), status(false, true), 99), Some(Server::Canary));
}

#[test]
fn none_online_routes_nowhere() {
    assert_eq!(plan_route(&config(50), status(false, false), 10), None);
}

#[test]
fn servers_have_labels_and_fallbacks() {
    assert_eq!(Server::Primary.label(), "primary");
    assert_eq!(Server::Canary.label(), "canary");
    assert_eq!(Server::Primary.other(), Server::Canary);
    assert_eq!(Server::Canary.other(), Server::Primary);
    assert_eq!(config(5).address(Server::Canary), "canary:80");
    assert_eq!(status(true, false).gauge_value(Server::Primary), 1);
    assert_eq!(status(true, false).gauge_value(Server::Canary), 0);
}

fn direct_config(pct: u8) -> Config {
    Config { primary_addr: "p".to_string(), canary_addr: "c".to_string(), canary_percentage: pct }
}

#[test]
fn direct_route_prefers_canary_below_percentage() {
    let both = ServiceAvailability { primary_available: true, canary_available: true };
    assert_eq!(plan_direct_route(&direct_config(50), both, 49), Some(Server::Canary));
    assert_eq!(plan_direct_route(&direct_config(50), both, 50), Some(Server::Primary));
    let canary_only = ServiceAvailability { primary_available: false, canary_available: true };
    assert_eq!(plan_direct_route(&direct_config(50), canary_only, 70), None);
    assert_eq!(plan_direct_route(&direct_config(50), canary_only, 10), Some(Server::Canary));
    let none = ServiceAvailability::new();
    assert_eq!(plan_direct_route(&direct_config(100), none, 0), None);
}

#[test]
fn direct_draws_follow_percentage_bounds() {
    let both = ServiceAvailability { primary_available: true, canary_available: true };
    for _ in 0..200 {
        assert_eq!(choose_direct_route(&direct_config(100), both), Some(Server::Canary));
        assert_eq!(choose_direct_route(&direct_config(0), both), Some(Server::Primary));
    }
}

#[test]
fn direct_draws_reach_both_sides() {
    let both = ServiceAvailability { primary_available: true, canary_available: true };
    let mut canary = 0;
    for _ in 0..2000 {
        if choose_direct_route(&direct_config(50), both) == Some(Server::Canary) {
            canary += 1;
        }
    }
    assert!(canary > 500 && canary < 1500);
}

#[test]
fn availability_updates_by_address() {
    let mut a = ServiceAvailability::new();
    a.update_availability("http://primary:8080", true);
    assert!(a.primary_available && !a.canary_available);
    a.update_availability("10.0.0.2:8080", true);
    assert!(a.primary_available && a.canary_available);
    a.update_availability("my-primary-host", false);
    assert!(!a.primary_available && a.canary_available);
}

#[test]
fn state_starts_empty_and_offline() {
    let s = GatewayState::new();
    let c = s.get_config();
    assert_eq!(c.primary_addr, "");
    assert_eq!(c.canary_addr, "");
    assert_eq!(c.canary_percentage, 0);
    assert_eq!(s.get_server_status(), status(false, false));
}

#[test]
fn state_keeps_config_on_failed_fetch() {
    let mut s = GatewayState::new();
    s.update_config(Some(config(25)));
    assert_eq!(s.get_config().canary_percentage, 25);
    s.update_config(None);
    assert_eq!(s.get_config().canary_percentage, 25);
    assert_eq!(s.get_config().primary_addr, "primary:80");
    s.update_server_status(true, false);
    assert_eq!(s.get_server_status(), status(true, false));
    assert_eq!(s.get_config().canary_addr, "canary:80");
}

#[test]
fn env_defaults_and_errors() {
    let e = init_env(Some("redis://x".to_string()), None, Some("30".to_string())).ok().unwrap();
    assert_eq!(e.redis_url, "redis://x");
    assert_eq!(e.config_update_interval_secs, 10);
    assert_eq!(e.status_update_interval_secs, 30);
    assert_eq!(init_env(None, None, None).err(), Some(SettingsError::MissingRedisUrl));
    assert_eq!(
        init_env(Some("r".to_string()), Some("x".to_string()), Some("y".to_string())).err(),
        Some(SettingsError::InvalidConfigUpdateInterval)
    );
    assert_eq!(
        init_env(Some("r".to_string()), Some("5".to_string()), Some("-3".to_string())).err(),
        Some(SettingsError::InvalidStatusUpdateInterval)
    );
}

#[test]
fn redis_settings_default_key() {
    assert_eq!(
        load_env(Some("redis://h".to_string()), None).ok().unwrap(),
        ("redis://h".to_string(), "gateway_config".to_string())
    );
    assert_eq!(
        load_env(Some("h".to_string()), Some("k".to_string())).ok().unwrap(),
        ("h".to_string(), "k".to_string())
    );
    assert_eq!(load_env(None, Some("k".to_string())).err(), Some(SettingsError::MissingRedisHost));
}

#[test]
fn redis_key_defaults() {
    assert_eq!(redis_key_or_default(None), "gateway_config");
    assert_eq!(redis_key_or_default(Some("k".to_string())), "k");
}

#[test]
fn gateway_opens_only_for_redis_urls() {
    let (_, state) = open_gateway("redis://127.0.0.1:6379/").unwrap();
    assert_eq!(state.get_server_status(), status(false, false));
    assert_eq!(state.get_config().canary_percentage, 0);
    assert!(open_gateway("http://example.com").is_none());
    assert!(open_gateway("not a url").is_none());
    assert!(init_redis_client("redis://localhost").is_ok());
    assert!(init_redis_client("ftp://x").is_err());
}
