use signal_pingpong::config::{Config, ConfigError, Role};

#[test]
fn zero_round_count_is_rejected() {
    let r = Config::new(0, 1, Role::Coordinator);
    assert_eq!(r.unwrap_err(), ConfigError::ZeroRoundCount);
}

#[test]
fn positive_round_count_is_accepted() {
    let c = Config::new(1_000_000, 1, Role::Responder).unwrap();
    assert_eq!(c.round_count, 1_000_000);
    assert_eq!(c.payload_size, 1);
    assert_eq!(c.role, Role::Responder);
}

#[test]
fn payload_size_zero_is_accepted() {
    let c = Config::new(1, 0, Role::Coordinator).unwrap();
    assert_eq!(c.payload_size, 0);
    assert_eq!(c.round_count, 1);
}
