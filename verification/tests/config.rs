use bsc_sniper::config::{
    has_credentials, parse_u64, relay_env_pairs, settings_from_env, ConfigError, EnvValues,
};

fn empty_env() -> EnvValues {
    EnvValues {
        rpc_url: None,
        rpc_url_https: None,
        wss_url: None,
        relay_cmd: None,
        private_key: None,
        gas_limit: None,
        snipe_flap: None,
        snipe_fourmeme: None,
        blockrazor_forwarder: None,
        relay_endpoint: None,
        api_key: None,
        sendtx_cmd: None,
    }
}

fn some(s: &str) -> Option<String> {
    Some(s.to_string())
}

#[test]
fn private_key_is_required() {
    assert_eq!(settings_from_env(empty_env()).err(), Some(ConfigError::MissingPrivateKey));
}

#[test]
fn defaults() {
    let mut env = empty_env();
    env.private_key = some("k");
    let s = settings_from_env(env).unwrap();
    assert_eq!(s.rpc_url, "https://bsc-dataseed.binance.org");
    assert_eq!(s.gas_limit, 350_000);
    assert!(s.snipe_flap && s.snipe_fourmeme);
    assert_eq!(s.wss_url, None);
    assert_eq!(s.relay_cmd, None);
    assert_eq!(s.sendtx_cmd, None);
}

#[test]
fn values_are_read() {
    let mut env = empty_env();
    env.private_key = some("k");
    env.rpc_url_https = some("https://b");
    env.wss_url = some("");
    env.relay_cmd = some("");
    env.gas_limit = some("+420000");
    env.snipe_flap = some("TRUE");
    env.snipe_fourmeme = some("yes");
    env.api_key = some("secret");
    env.relay_endpoint = some("");
    let s = settings_from_env(env).unwrap();
    assert_eq!(s.rpc_url, "https://b");
    assert_eq!(s.wss_url, Some(String::new()));
    assert_eq!(s.relay_cmd, None);
    assert_eq!(s.gas_limit, 420_000);
    assert!(s.snipe_flap);
    assert!(!s.snipe_fourmeme);
    assert_eq!(s.api_key, some("secret"));
    assert_eq!(s.relay_endpoint, None);
}

#[test]
fn rpc_url_takes_precedence() {
    let mut env = empty_env();
    env.private_key = some("k");
    env.rpc_url = some("https://a");
    env.rpc_url_https = some("https://b");
    assert_eq!(settings_from_env(env).unwrap().rpc_url, "https://a");
}

#[test]
fn bad_gas_limit_falls_back() {
    let mut env = empty_env();
    env.private_key = some("k");
    env.gas_limit = some("12x");
    assert_eq!(settings_from_env(env).unwrap().gas_limit, 350_000);
}

#[test]
fn credentials() {
    let mut env = empty_env();
    env.private_key = some("");
    let s = settings_from_env(env).unwrap();
    assert!(!has_credentials(&s));
    let mut env = empty_env();
    env.private_key = some("k");
    assert!(has_credentials(&settings_from_env(env).unwrap()));
}

#[test]
fn u64_parsing_matches_std() {
    for t in ["0", "42", "+7", "18446744073709551615", "18446744073709551616", "", "+", "-1", " 1", "1_0", "00012"] {
        assert_eq!(parse_u64(t), t.parse::<u64>().ok(), "{:?}", t);
    }
}

#[test]
fn relay_env_keeps_set_values_in_order() {
    let pairs = relay_env_pairs(some("e"), some(""), None, some("auth"));
    assert_eq!(
        pairs,
        vec![
            ("RELAY_ENDPOINT".to_string(), "e".to_string()),
            ("BLOCKRAZOR_FAST_AUTH".to_string(), "auth".to_string()),
        ]
    );
}
