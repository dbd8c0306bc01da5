use settings::errors::{ConfigError, INVALID_CONFIGURATION, SUCCESS, UNKNOWN_ERROR};
use settings::registry::Registry;
use settings::shared::SharedRegistry;
use settings::validation::is_valid;

fn pair(k: &str, v: &str) -> (String, String) {
    (k.to_string(), v.to_string())
}

#[test]
fn test_invalid_config_value() {
    let mut registry = Registry::new();
    registry.set_defaults();
    match registry.get_config_value("garbage") {
        Err(x) => assert_eq!(x, INVALID_CONFIGURATION),
        Ok(v) => assert_eq!(v, "totalgarbage"), //if test gets here it will fail
    };
}

#[test]
fn test_bad_path() {
    //test bad path
    let tmp_string = "garbage.txt";
    let mut registry = Registry::new();
    match registry.process_config_file(tmp_string) {
        Err(x) => assert_eq!(x.message(), "could not find configuration file"),
        Ok(x) => assert_eq!(x, UNKNOWN_ERROR), //if test gets here it will fail
    }
}

#[test]
fn test_process_config_pairs() {
    // The same content as a sample file { "a" : "a", "b":"b", "pool_name":"*98*" },
    // handed to the merge step as pairs: the merge is applied even though the
    // later validation fails.
    let mut registry = Registry::new();
    registry.set_defaults();
    let pairs = vec![pair("a", "a"), pair("b", "b"), pair("pool_name", "*98*")];
    match registry.process_config_pairs(&pairs) {
        Err(ConfigError::InvalidConfigurationValue(m)) => {
            assert!(m.contains("pool_name"));
            assert!(m.contains("*98*"));
        }
        Err(e) => panic!("expected a validation error, got {:?}", e),
        Ok(v) => assert_eq!(v, UNKNOWN_ERROR), //fail if we get here
    }
    match registry.get_config_value("a") {
        Err(x) => assert_eq!(x, SUCCESS), //fail if we get here
        Ok(v) => assert_eq!(v, "a"),
    };
    match registry.get_config_value("b") {
        Err(x) => assert_eq!(x, SUCCESS), //fail if we get here
        Ok(v) => assert_eq!(v, "b"),
    };
}

#[test]
fn test_set_defaults() {
    let mut registry = Registry::new();
    assert_eq!(registry.set_defaults(), SUCCESS);
    assert_eq!(registry.get_config_value("pool_name").unwrap(), "pool1");
    assert_eq!(registry.get_config_value("config_name").unwrap(), "config1");
    assert_eq!(registry.get_config_value("wallet_name").unwrap(), "wallet1");
    assert_eq!(registry.get_config_value("wallet_type").unwrap(), "default");
    assert_eq!(
        registry.get_config_value("agent_endpoint").unwrap(),
        "http://127.0.0.1:8080"
    );
}

#[test]
fn test_defaults_do_not_overwrite() {
    let mut registry = Registry::new();
    let pairs = vec![pair("pool_name", "mypool")];
    assert!(registry.process_config_pairs(&pairs).is_ok());
    registry.set_defaults();
    assert_eq!(registry.get_config_value("pool_name").unwrap(), "mypool");
    assert_eq!(registry.get_config_value("wallet_name").unwrap(), "wallet1");
}

#[test]
fn test_valid_values_accepted() {
    for key in ["pool_name", "config_name", "wallet_name"] {
        let mut registry = Registry::new();
        registry.set_defaults();
        let pairs = vec![pair(key, "Value_123")];
        match registry.process_config_pairs(&pairs) {
            Ok(c) => assert_eq!(c, SUCCESS),
            Err(e) => panic!("expected success for {}, got {:?}", key, e),
        }
    }
}

#[test]
fn test_invalid_values_rejected() {
    for key in ["pool_name", "config_name", "wallet_name"] {
        let mut registry = Registry::new();
        registry.set_defaults();
        let pairs = vec![pair(key, "*98*")];
        match registry.process_config_pairs(&pairs) {
            Err(ConfigError::InvalidConfigurationValue(m)) => {
                assert!(m.contains(key));
                assert!(m.contains("*98*"));
            }
            other => panic!("expected a validation error for {}, got {:?}", key, other),
        }
    }
}

#[test]
fn test_error_message_deterministic_order() {
    let mut registry = Registry::new();
    let pairs = vec![pair("wallet_name", "!"), pair("config_name", "*")];
    match registry.process_config_pairs(&pairs) {
        Err(ConfigError::InvalidConfigurationValue(m)) => assert_eq!(
            m,
            "config_name has invalid setting: *wallet_name has invalid setting: !"
        ),
        other => panic!("expected a validation error, got {:?}", other),
    }
}

#[test]
fn test_validate_config() {
    let mut registry = Registry::new();
    registry.set_defaults();
    assert_eq!(registry.validate_config().unwrap(), SUCCESS);
    let pairs = vec![pair("wallet_name", "bad wallet")];
    assert!(registry.process_config_pairs(&pairs).is_err());
    assert_eq!(
        registry.validate_config().unwrap_err(),
        "wallet_name has invalid setting: bad wallet"
    );
}

#[test]
fn test_bad_path_leaves_registry_unchanged() {
    let mut registry = Registry::new();
    registry.set_defaults();
    let pairs = vec![pair("pool_name", "mypool")];
    assert!(registry.process_config_pairs(&pairs).is_ok());
    match registry.process_config_file("garbage.txt") {
        Err(ConfigError::ConfigurationFileNotFound) => {}
        other => panic!("expected a missing-file error, got {:?}", other),
    }
    assert_eq!(registry.get_config_value("pool_name").unwrap(), "mypool");
}

#[test]
fn test_unparseable_file() {
    // An existing file that is not in a format the parser accepts: the
    // pipeline reports a parse failure and changes nothing.
    let mut registry = Registry::new();
    registry.set_defaults();
    match registry.process_config_file("/etc/hostname") {
        Err(e) => assert_eq!(e.message(), "could not parse configuration file"),
        Ok(x) => assert_eq!(x, UNKNOWN_ERROR), //fail if we get here
    }
    assert_eq!(registry.get_config_value("pool_name").unwrap(), "pool1");
}

#[test]
fn test_is_valid() {
    assert!(is_valid("Value_123"));
    assert!(is_valid(""));
    assert!(is_valid("pool1"));
    assert!(!is_valid("*98*"));
    assert!(!is_valid("has space"));
    assert!(!is_valid("http://127.0.0.1:8080"));
}

#[test]
fn test_shared_registry() {
    let shared = SharedRegistry::new();
    assert_eq!(shared.get_config_value("pool_name").unwrap(), "pool1");
    assert_eq!(shared.set_defaults(), SUCCESS);
    assert_eq!(shared.get_config_value("agent_endpoint").unwrap(), "http://127.0.0.1:8080");
    match shared.get_config_value("garbage") {
        Err(x) => assert_eq!(x, INVALID_CONFIGURATION),
        Ok(v) => assert_eq!(v, "totalgarbage"), //if test gets here it will fail
    }
    match shared.process_config_file("garbage.txt") {
        Err(e) => assert_eq!(e.message(), "could not find configuration file"),
        Ok(x) => assert_eq!(x, UNKNOWN_ERROR), //fail if we get here
    }
    assert_eq!(shared.get_config_value("pool_name").unwrap(), "pool1");
}
