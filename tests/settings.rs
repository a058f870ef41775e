use batch_gateway::config::{Config, ConfigError};
use batch_gateway::keys::{
    batch_api_key_key, batch_members_key, completion_channel, processing_set_key, queued_set_key, request_key,
    RECORD_TTL_SECS,
};

fn s(v: &str) -> Option<String> {
    Some(v.to_string())
}

#[test]
fn defaults_when_unset() {
    let c = Config::from_values(None, None, None, None, None, None, None).unwrap();
    assert!(c.upstream_base_url.is_none());
    assert_eq!(c.upstream_base(), "https://api.openai.com/v1");
    assert_eq!(c.redis_url, "redis://127.0.0.1:6379");
    assert_eq!(c.batch_window_secs, 60);
    assert_eq!(c.batch_poll_interval_secs, 60);
    assert_eq!(c.server_host, "0.0.0.0");
    assert_eq!(c.server_port, 8080);
    assert_eq!(c.tcp_keepalive_secs, 60);
}

#[test]
fn values_given() {
    let c = Config::from_values(
        s("http://up/v1"),
        s("redis://r:1"),
        s("5"),
        s("+7"),
        s("127.0.0.1"),
        s("65535"),
        s("18446744073709551615"),
    )
    .unwrap();
    assert_eq!(c.upstream_base(), "http://up/v1");
    assert_eq!(c.redis_url, "redis://r:1");
    assert_eq!(c.batch_window_secs, 5);
    assert_eq!(c.batch_poll_interval_secs, 7);
    assert_eq!(c.server_host, "127.0.0.1");
    assert_eq!(c.server_port, 65535);
    assert_eq!(c.tcp_keepalive_secs, u64::MAX);
}

#[test]
fn invalid_numbers_rejected() {
    match Config::from_values(None, None, s("abc"), None, None, None, None) {
        Err(ConfigError::InvalidNumber { name, value }) => {
            assert_eq!(name, "BATCH_WINDOW_SECS");
            assert_eq!(value, "abc");
        }
        Ok(_) => panic!("expected an error"),
    }
    assert!(Config::from_values(None, None, None, None, None, s("65536"), None).is_err());
    assert!(Config::from_values(None, None, None, s(""), None, None, None).is_err());
    assert!(Config::from_values(None, None, None, None, None, None, s(" 60")).is_err());
    assert!(Config::from_values(None, None, None, None, None, None, s("-1")).is_err());
    assert!(Config::from_values(None, None, None, None, None, None, s("18446744073709551616")).is_err());
}

#[test]
fn store_key_layout() {
    assert_eq!(request_key("k1"), "request:k1");
    assert_eq!(batch_members_key("b1"), "batch:b1");
    assert_eq!(batch_api_key_key("b1"), "batch_api_key:b1");
    assert_eq!(completion_channel("k1"), "completion:k1");
    assert_eq!(queued_set_key(), "queued_requests");
    assert_eq!(processing_set_key(), "processing_batches");
    assert_eq!(RECORD_TTL_SECS, 172800);
}
