use mp_core::auth::AuthService;
use mp_core::config::Config;
use mp_core::game::Area;
use mp_core::logger::{LogLevel, Logger};
use mp_core::time::{TickEvent, TickerOptions, TimeSpan};

#[test]
fn test_timespan_creation() {
    let ts = TimeSpan::from_milliseconds(1000);
    assert_eq!(ts.total_milliseconds(), 1000);
    assert_eq!(ts.total_milliseconds() as f64 / 1000.0, 1.0);
}

#[test]
fn test_timespan_from_seconds() {
    let ts = TimeSpan::from_seconds(5);
    assert_eq!(ts.total_milliseconds(), 5000);
    assert_eq!(ts.total_milliseconds() as f64 / 1000.0, 5.0);
}

#[test]
fn test_timespan_zero() {
    let ts = TimeSpan::zero();
    assert_eq!(ts.total_milliseconds(), 0);
    assert_eq!(ts.total_milliseconds() as f64 / 1000.0, 0.0);
}

#[test]
fn timespans_compare_by_their_length() {
    assert_eq!(TimeSpan::from_seconds(2), TimeSpan::from_milliseconds(2000));
    assert!(TimeSpan::from_milliseconds(-1) < TimeSpan::zero());
    assert!(TimeSpan::from_seconds(1) > TimeSpan::from_milliseconds(999));
    assert_eq!(TimeSpan::from_seconds(-3).total_milliseconds(), -3000);
}

#[test]
fn checked_from_seconds_refuses_what_does_not_fit() {
    assert_eq!(TimeSpan::checked_from_seconds(5), Some(TimeSpan::from_milliseconds(5000)));
    assert_eq!(
        TimeSpan::checked_from_seconds(9223372036854775),
        Some(TimeSpan::from_milliseconds(9223372036854775000))
    );
    assert_eq!(TimeSpan::checked_from_seconds(9223372036854776), None);
    assert_eq!(
        TimeSpan::checked_from_seconds(-9223372036854775),
        Some(TimeSpan::from_milliseconds(-9223372036854775000))
    );
    assert_eq!(TimeSpan::checked_from_seconds(-9223372036854776), None);
    assert_eq!(TimeSpan::checked_from_seconds(i64::MAX), None);
    assert_eq!(TimeSpan::checked_from_seconds(i64::MIN), None);
}

#[test]
fn tick_event_and_options_hold_their_fields() {
    let event = TickEvent {
        time_since_last_tick: TimeSpan::from_milliseconds(50),
        total_time_elapsed: TimeSpan::from_seconds(1),
    };
    assert_eq!(event.time_since_last_tick.total_milliseconds(), 50);
    assert_eq!(event.total_time_elapsed.total_milliseconds(), 1000);
    assert!(TickerOptions::default().on_error.is_none());
}

#[test]
fn logger_tags_records_with_its_service() {
    let logger = Logger::new("gateway".to_string());
    assert_eq!(logger.service_name(), "gateway");

    let record = logger.info("started");
    assert_eq!(record.level, LogLevel::Info);
    assert_eq!(record.service, "gateway");
    assert_eq!(record.message, "started");

    assert_eq!(logger.warn("w").level, LogLevel::Warn);
    assert_eq!(logger.error("e").level, LogLevel::Error);
    assert_eq!(logger.debug("d").level, LogLevel::Debug);
    assert_eq!(logger.debug("d").message, "d");
    assert_eq!(Logger::default().service_name(), "mp");
}

#[test]
fn auth_service_keeps_its_settings() {
    let service = AuthService::new(
        "http://localhost:8080".to_string(),
        "mp".to_string(),
        "mp-client".to_string(),
    );
    assert_eq!(service.keycloak_url, "http://localhost:8080");
    assert_eq!(service.realm, "mp");
    assert_eq!(service.client_id, "mp-client");
}

#[test]
fn verify_token_answers_with_the_placeholder() {
    let service = AuthService::new(String::new(), String::new(), String::new());
    let user = service.verify_token("anything").unwrap();
    assert_eq!(user.username, "placeholder");
    assert_eq!(user.email, "placeholder@example.com");
    assert_eq!(user.roles, vec!["user".to_string()]);
    assert_eq!(user.id.get_version(), Some(uuid::Version::Random));
    assert_ne!(service.verify_token("").unwrap().id, user.id);
}

#[test]
fn area_counts_and_holds_tiles() {
    let area = Area { id: "a".to_string(), name: "Start".to_string(), width: 3, height: 2 };
    assert_eq!(area.tile_count(), 6);
    assert!(area.contains_tile(2, 1));
    assert!(!area.contains_tile(3, 1));
    assert!(!area.contains_tile(2, 2));
    let wide =
        Area { id: "w".to_string(), name: "Wide".to_string(), width: u32::MAX, height: u32::MAX };
    assert_eq!(wide.tile_count(), 18446744065119617025);
}

#[test]
fn config_defaults() {
    let config = Config::with_database_url(None);
    assert_eq!(config.port, 3000);
    assert_eq!(config.database_url, "postgresql://localhost/mp");
    let config = Config::with_database_url(Some("postgresql://db/game".to_string()));
    assert_eq!(config.port, 3000);
    assert_eq!(config.database_url, "postgresql://db/game");
}
