use notepush::config::{ApnsConfig, ApnsEndpoint, NotePushConfig};
use notepush::notepush_env::{parse_decimal_u64, EnvValues, NotePushEnv};

fn config(host: Option<&str>, port: Option<&str>) -> NotePushConfig {
    NotePushConfig {
        apns: None,
        fcm: None,
        db_path: None,
        host: host.map(|s| s.to_string()),
        port: port.map(|s| s.to_string()),
        api_base_url: "http://localhost:8000".to_string(),
        relay_url: None,
        nostr_event_cache_max_age: None,
        pull_relays: vec![],
    }
}

fn apns(environment: &str) -> ApnsConfig {
    ApnsConfig {
        key_path: "k.p8".into(),
        key_id: "1".into(),
        team_id: "2".into(),
        environment: environment.into(),
        topic: "t".into(),
    }
}

fn no_vars() -> EnvValues {
    EnvValues {
        apns_auth_private_key_file_path: None,
        apns_auth_private_key_id: None,
        apple_team_id: None,
        db_path: None,
        host: None,
        port: None,
        relay_url: None,
        apns_environment: None,
        api_base_url: None,
        apns_topic: None,
        nostr_event_cache_max_age: None,
        google_services_file_path: None,
        vaapi_key: None,
    }
}

#[test]
fn host_and_port_default() {
    let c = config(None, None);
    assert_eq!(c.host(), "0.0.0.0");
    assert_eq!(c.port(), "8000");
    assert_eq!(c.relay_address(), "0.0.0.0:8000");
}

#[test]
fn configured_host_and_port_are_bound() {
    let c = config(Some("127.0.0.1"), Some("9000"));
    assert_eq!(c.host(), "127.0.0.1");
    assert_eq!(c.port(), "9000");
    assert_eq!(c.relay_address(), "127.0.0.1:9000");
}

#[test]
fn apns_endpoint_ignores_ascii_case() {
    assert_eq!(apns("production").endpoint(), ApnsEndpoint::Production);
    assert_eq!(apns("PRODUCTION").endpoint(), ApnsEndpoint::Production);
    assert_eq!(apns("Production").endpoint(), ApnsEndpoint::Production);
    assert_eq!(apns("development").endpoint(), ApnsEndpoint::Sandbox);
    assert_eq!(apns("productions").endpoint(), ApnsEndpoint::Sandbox);
    assert_eq!(apns("").endpoint(), ApnsEndpoint::Sandbox);
}

#[test]
fn environment_defaults() {
    let env = NotePushEnv::from_env_values(no_vars());
    assert_eq!(env.db_path, "./apns_notifications.db");
    assert_eq!(env.host, "0.0.0.0");
    assert_eq!(env.port, "8000");
    assert_eq!(env.relay_url, "wss://relay.damus.io");
    assert_eq!(env.api_base_url, "https://0.0.0.0:8000");
    assert_eq!(env.apns_environment, ApnsEndpoint::Sandbox);
    assert_eq!(env.nostr_event_cache_max_age, 3600);
    assert_eq!(env.relay_address(), "0.0.0.0:8000");
    assert!(env.apns_private_key_path.is_none());
}

#[test]
fn environment_values_are_taken() {
    let mut vars = no_vars();
    vars.host = Some("10.0.0.1".into());
    vars.port = Some("443".into());
    vars.apns_environment = Some("production".into());
    vars.nostr_event_cache_max_age = Some("+120".into());
    vars.apns_topic = Some("com.example".into());
    let env = NotePushEnv::from_env_values(vars);
    assert_eq!(env.api_base_url, "https://10.0.0.1:443");
    assert_eq!(env.relay_address(), "10.0.0.1:443");
    assert_eq!(env.apns_environment, ApnsEndpoint::Production);
    assert_eq!(env.nostr_event_cache_max_age, 120);
    assert_eq!(env.apns_topic.as_deref(), Some("com.example"));
}

#[test]
fn apns_environment_in_the_environment_is_case_sensitive() {
    let mut vars = no_vars();
    vars.apns_environment = Some("Production".into());
    assert_eq!(NotePushEnv::from_env_values(vars).apns_environment, ApnsEndpoint::Sandbox);
}

#[test]
fn an_explicit_base_url_is_kept() {
    let mut vars = no_vars();
    vars.api_base_url = Some("https://push.example".into());
    assert_eq!(NotePushEnv::from_env_values(vars).api_base_url, "https://push.example");
}

#[test]
fn bad_cache_ages_fall_back_to_an_hour() {
    for bad in ["", "abc", "-5", "+", "18446744073709551616", "12a"] {
        let mut vars = no_vars();
        vars.nostr_event_cache_max_age = Some(bad.into());
        assert_eq!(NotePushEnv::from_env_values(vars).nostr_event_cache_max_age, 3600, "{:?}", bad);
    }
}

#[test]
fn parses_u64_as_std_does() {
    for s in ["0", "007", "+1", "18446744073709551615", "", "+", "-1", " 1", "1 ", "18446744073709551616", "99999999999999999999", "١"] {
        assert_eq!(parse_decimal_u64(s), s.parse::<u64>().ok(), "{:?}", s);
    }
}
