use offworld_trading_manager::config::{
    apply_config_overrides, default_admin_token, default_channels, default_max_packet_size,
    default_namespace, default_port, default_pulsar_url, default_tenant,
    default_trade_channel_capacity, default_webhook_timeout_secs, parse_u16, AdminConfig,
    ConfigOverrides, MarketConfig, PulsarConfig,
};
use offworld_trading_manager::models::{default_cabin_count, default_docking_bays, default_max_storage};
use offworld_trading_manager::text::decimal_digits;

fn no_overrides() -> ConfigOverrides {
    ConfigOverrides { env_port: None, env_pulsar_url: None, env_admin_token: None, cli_port: None, cli_verbose: 0, cli_seed: None }
}

#[test]
fn defaults_of_the_configuration() {
    assert_eq!(default_pulsar_url(), "pulsar://localhost:6650");
    assert_eq!(default_tenant(), "public");
    assert_eq!(default_namespace(), "default");
    assert_eq!(default_channels(), 4);
    assert_eq!(default_max_packet_size(), 20);
    assert_eq!(default_webhook_timeout_secs(), 5);
    assert_eq!(default_trade_channel_capacity(), 1024);
    assert_eq!(default_admin_token(), "admin-secret-token");
    assert_eq!(default_port(), 3000);
    let p = PulsarConfig::default();
    assert_eq!((p.url.as_str(), p.tenant.as_str(), p.namespace.as_str()), ("pulsar://localhost:6650", "public", "default"));
    assert_eq!(MarketConfig::default().trade_channel_capacity, 1024);
    assert_eq!(AdminConfig::default().token, "admin-secret-token");
}

#[test]
fn defaults_of_a_station() {
    assert_eq!(default_docking_bays(), 2);
    assert_eq!(default_max_storage(), u64::MAX);
    assert_eq!(default_cabin_count(), 2);
}

#[test]
fn port_parsing_like_str_parse() {
    for text in ["0", "80", "3000", "+8080", "65535", "00042", "65536", "", "+", "-1", "12a", " 80", "99999999999"] {
        assert_eq!(parse_u16(text), text.parse::<u16>().ok(), "input {:?}", text);
    }
    assert_eq!(parse_u16("+8080"), Some(8080));
    assert_eq!(parse_u16("65536"), None);
}

#[test]
fn port_reads_back_from_its_decimal_text() {
    for n in [0u16, 7, 10, 3000, 65535] {
        let text: String = decimal_digits(n as u64).into_iter().collect();
        assert_eq!(text, n.to_string());
        assert_eq!(parse_u16(&text), Some(n));
    }
}

#[test]
fn overrides_in_order_of_precedence() {
    let (mut port, mut verbose, mut seed) = (default_port(), 0u8, None);
    let (mut pulsar, mut admin) = (PulsarConfig::default(), AdminConfig::default());
    apply_config_overrides(&mut port, &mut verbose, &mut seed, &mut pulsar, &mut admin, no_overrides());
    assert_eq!((port, verbose, seed.clone()), (3000, 0, None));
    assert_eq!(admin.token, "admin-secret-token");

    let env = ConfigOverrides {
        env_port: Some("4000".to_string()),
        env_pulsar_url: Some("pulsar://broker:6650".to_string()),
        env_admin_token: Some("t0ken".to_string()),
        ..no_overrides()
    };
    apply_config_overrides(&mut port, &mut verbose, &mut seed, &mut pulsar, &mut admin, env);
    assert_eq!(port, 4000);
    assert_eq!(pulsar.url, "pulsar://broker:6650");
    assert_eq!(pulsar.tenant, "public");
    assert_eq!(admin.token, "t0ken");

    let bad_env = ConfigOverrides { env_port: Some("port".to_string()), ..no_overrides() };
    apply_config_overrides(&mut port, &mut verbose, &mut seed, &mut pulsar, &mut admin, bad_env);
    assert_eq!(port, 4000);

    let cli = ConfigOverrides {
        env_port: Some("4001".to_string()),
        cli_port: Some(5000),
        cli_verbose: 2,
        cli_seed: Some("seed.json".to_string()),
        ..no_overrides()
    };
    apply_config_overrides(&mut port, &mut verbose, &mut seed, &mut pulsar, &mut admin, cli);
    assert_eq!((port, verbose), (5000, 2));
    assert_eq!(seed.as_deref(), Some("seed.json"));
    apply_config_overrides(&mut port, &mut verbose, &mut seed, &mut pulsar, &mut admin, no_overrides());
    assert_eq!((port, verbose), (5000, 2));
}
