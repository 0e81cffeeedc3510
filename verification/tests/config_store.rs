use api_config::config::{ConfigError, ConfigStore};

#[test]
fn initialize_uses_default_when_env_absent() {
    let store = ConfigStore::initialize(None, "http://api:3000".to_string());
    assert_eq!(store.get(), "http://api:3000");
}

#[test]
fn initialize_uses_env_value_exactly_when_present() {
    let store = ConfigStore::initialize(
        Some("  http://example.org:8080/ ".to_string()),
        "http://api:3000".to_string(),
    );
    // No trimming or other transformation of the environment's value.
    assert_eq!(store.get(), "  http://example.org:8080/ ");
}

#[test]
fn initialize_keeps_empty_env_value() {
    let store = ConfigStore::initialize(Some(String::new()), "http://api:3000".to_string());
    assert_eq!(store.get(), "");
}

#[test]
fn set_then_get_returns_exactly_the_set_value() {
    let mut store = ConfigStore::initialize(None, "http://api:3000".to_string());
    store.set("http://localhost:3000".to_string());
    assert_eq!(store.get(), "http://localhost:3000");
    store.set("http://other:9999".to_string());
    assert_eq!(store.get(), "http://other:9999");
}

#[test]
fn base_url_scenario_default_then_overwrite() {
    let mut store = ConfigStore::initialize(None, "http://api:3000".to_string());
    assert_eq!(store.get(), "http://api:3000");
    store.set("http://example.com".to_string());
    assert_eq!(store.get(), "http://example.com");
}

#[test]
fn lock_error_message() {
    assert_eq!(ConfigError::LockUnavailable.message(), "Failed to lock API config");
}
