use veil_core::config::{KeyConfig, ServerConfig};

#[test]
fn test_default_config_values() {
    let c = ServerConfig::default();
    assert_eq!(c.listen_addr, "0.0.0.0:8481");
    assert_eq!(c.backend_url, "http://127.0.0.1:8000");
    assert_eq!(c.server_secret_key, "");
    assert_eq!(c.key_id, "default");
    assert_eq!(c.max_body_size, Some(10 * 1024 * 1024));
    assert_eq!(c.request_timeout_secs, Some(300));
    assert_eq!(c.metrics_enabled, Some(true));
    assert_eq!(c.max_request_age_secs, Some(300));
    assert!(c.additional_keys.is_none());
}

#[test]
fn test_getters_use_defaults_when_unset() {
    let mut c = ServerConfig::default();
    c.max_body_size = None;
    c.request_timeout_secs = None;
    c.max_request_age_secs = None;
    assert_eq!(c.max_body_size(), 10 * 1024 * 1024);
    assert_eq!(c.request_timeout().as_secs(), 300);
    assert_eq!(c.max_request_age().as_secs(), 300);
    assert_eq!(c.request_timeout_secs_or_default(), 300);
    assert_eq!(c.max_request_age_secs_or_default(), 300);
}

#[test]
fn test_getters_use_configured_values() {
    let mut c = ServerConfig::default();
    c.max_body_size = Some(1024);
    c.request_timeout_secs = Some(5);
    c.max_request_age_secs = Some(60);
    c.additional_keys = Some(vec![KeyConfig { secret_key: "s".to_string(), key_id: "k2".to_string() }]);
    assert_eq!(c.max_body_size(), 1024);
    assert_eq!(c.request_timeout().as_secs(), 5);
    assert_eq!(c.max_request_age().as_secs(), 60);
}

#[test]
fn test_choose_secret_key_prefers_environment() {
    let mut c = ServerConfig::default();
    c.server_secret_key = "from-file".to_string();
    assert_eq!(c.choose_secret_key(Some("from-env".to_string())), "from-env");
    assert_eq!(c.choose_secret_key(None), "from-file");
}

#[test]
fn test_key_sources_order() {
    let mut c = ServerConfig::default();
    c.server_secret_key = "primary-secret".to_string();
    c.key_id = "k1".to_string();
    assert_eq!(
        c.key_sources(None),
        vec![("k1".to_string(), "primary-secret".to_string())]
    );
    c.additional_keys = Some(vec![
        KeyConfig { secret_key: "s2".to_string(), key_id: "k2".to_string() },
        KeyConfig { secret_key: "s3".to_string(), key_id: "k3".to_string() },
    ]);
    assert_eq!(
        c.key_sources(Some("env-secret".to_string())),
        vec![
            ("k1".to_string(), "env-secret".to_string()),
            ("k2".to_string(), "s2".to_string()),
            ("k3".to_string(), "s3".to_string()),
        ]
    );
}
