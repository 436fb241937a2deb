use trade_copier::config::{
    apply_symbol_prefix, default_cmd, default_limit, listing_limit, multiplier_at_most_zero,
    profit_history_limit, worker_key, SlaveConfig,
};
use trade_copier::status::{DependencyStatus, ErrorSeverity, WorkerState};

fn slave(name: &str, address: &str, multiplier: f64) -> SlaveConfig {
    SlaveConfig {
        name: name.to_string(),
        address: address.to_string(),
        multiplier_bits: multiplier.to_bits(),
        symbol_prefix: String::new(),
    }
}

#[test]
fn test_slave_config_validation_valid() {
    let config = slave("TestWorker", "127.0.0.1:5001", 1.5);
    assert!(config.validate().is_ok());
}

#[test]
fn test_slave_config_validation_empty_name() {
    let config = slave("", "127.0.0.1:5001", 1.0);
    assert!(config.validate().is_err());
}

#[test]
fn test_slave_config_validation_invalid_multiplier() {
    let config = slave("TestWorker", "127.0.0.1:5001", 0.0);
    assert!(config.validate().is_err());
}

#[test]
fn test_slave_config_validation_invalid_address() {
    let config = slave("TestWorker", "invalid_address", 1.0);
    assert!(config.validate().is_err());
}

#[test]
fn test_default_cmd() {
    assert_eq!(default_cmd(), "open");
}

#[test]
fn validation_messages_in_order() {
    assert_eq!(
        slave("", "nope", -1.0).validate(),
        Err("Worker name cannot be empty".to_string())
    );
    assert_eq!(
        slave("w", "nope", -1.0).validate(),
        Err("Multiplier must be greater than 0".to_string())
    );
    assert_eq!(
        slave("w", "nope", 2.0).validate(),
        Err("Address must be in format host:port".to_string())
    );
}

#[test]
fn multiplier_sign_from_bits() {
    assert!(multiplier_at_most_zero(0.0f64.to_bits()));
    assert!(multiplier_at_most_zero((-0.0f64).to_bits()));
    assert!(multiplier_at_most_zero((-2.5f64).to_bits()));
    assert!(multiplier_at_most_zero(f64::NEG_INFINITY.to_bits()));
    assert!(!multiplier_at_most_zero(1e-300f64.to_bits()));
    assert!(!multiplier_at_most_zero(f64::NAN.to_bits()));
    assert!(!multiplier_at_most_zero(f64::INFINITY.to_bits()));
}

#[test]
fn nan_multiplier_passes_validation_like_the_float_comparison() {
    assert!(slave("w", "h:1", f64::NAN).validate().is_ok());
}

#[test]
fn listing_limits() {
    assert_eq!(default_limit(), 100);
    assert_eq!(listing_limit(None), 100);
    assert_eq!(listing_limit(Some(7)), 7);
    assert_eq!(profit_history_limit(None), 1000);
    assert_eq!(profit_history_limit(Some(-3)), -3);
}

#[test]
fn symbol_prefix_is_appended() {
    assert_eq!(apply_symbol_prefix("EURUSD", ""), "EURUSD");
    assert_eq!(apply_symbol_prefix("EURUSD", ".m"), "EURUSD.m");
}

#[test]
fn worker_keys() {
    assert_eq!(worker_key(12, "alpha"), "12-alpha");
    assert_eq!(worker_key(-4, "b"), "-4-b");
    assert_ne!(worker_key(1, "2-x"), worker_key(12, "x"));
}

#[test]
fn status_names() {
    assert_eq!(WorkerState::Active.as_str(), "active");
    assert_eq!(WorkerState::Inactive.as_str(), "inactive");
    assert_eq!(WorkerState::Error.as_str(), "error");
    assert_eq!(WorkerState::Installing.as_str(), "installing");
    assert_eq!(ErrorSeverity::Warning.as_str(), "warning");
    assert_eq!(ErrorSeverity::Error.as_str(), "error");
    assert_eq!(ErrorSeverity::Critical.as_str(), "critical");
    for s in [
        DependencyStatus::Pending,
        DependencyStatus::Installing,
        DependencyStatus::Installed,
        DependencyStatus::Error,
    ] {
        assert_eq!(DependencyStatus::from_str(s.as_str()), s);
    }
    assert_eq!(DependencyStatus::Installed.as_str(), "installed");
    assert_eq!(DependencyStatus::from_str("bogus"), DependencyStatus::Pending);
    assert_eq!(DependencyStatus::from_str("Installed"), DependencyStatus::Pending);
}
