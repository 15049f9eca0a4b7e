use ulendo::clock;
use ulendo::config::{Config, EnvVars};
use ulendo::error::AppError;
use ulendo::ids;
use ulendo::json;
use ulendo::money;

#[test]
fn errors_have_their_status_and_message() {
    let cases: Vec<(AppError, u16, &str, &str)> = vec![
        (AppError::not_found("x"), 404, "x", "not found: x"),
        (AppError::unauthorized("x"), 401, "x", "unauthorized: x"),
        (AppError::bad_request("x"), 400, "x", "bad request: x"),
        (AppError::Conflict("x".to_string()), 409, "x", "conflict: x"),
        (AppError::Payment("x".to_string()), 402, "x", "payment error: x"),
        (AppError::Database("x".to_string()), 500, "database error", "database error: x"),
        (AppError::Internal("x".to_string()), 500, "internal server error", "internal error: x"),
    ];
    for (e, status, public, full) in cases {
        assert_eq!(e.into_response(), (status, public.to_string()));
        assert_eq!(e.to_text(), full);
    }
}

#[test]
fn the_clock_shows_the_time() {
    let now = clock::now();
    let system = std::time::SystemTime::now().duration_since(std::time::UNIX_EPOCH).unwrap().as_secs() as i64;
    assert!((now - system).abs() <= 2);
    assert!(clock::valid_timestamp(now));
    assert!(!clock::valid_timestamp(-1));
    assert!(!clock::valid_timestamp(10_000_000_000_000));
}

#[test]
fn identifiers_are_fresh_hexadecimal() {
    let a = ids::new_id();
    let b = ids::new_id();
    assert_ne!(a, b);
    assert_eq!(a.len(), 32);
    assert!(a.chars().all(|c| matches!(c, '0'..='9' | 'a'..='f')));
    assert_eq!(
        ids::id_of_uuid("f47ac10b-58cc-4372-a567-0e02b2c3d479"),
        "f47ac10b58cc4372a5670e02b2c3d479"
    );
}

#[test]
fn lists_are_written_as_json() {
    let list = vec!["a".to_string(), "b\"c".to_string()];
    assert_eq!(json::string_list_text(&list), "[\"a\",\"b\\\"c\"]");
    assert_eq!(json::string_list_text(&Vec::new()), "[]");
    assert_eq!(json::string_table_text(&vec![list, Vec::new()]), "[[\"a\",\"b\\\"c\"],[]]");
    assert_eq!(json::list_or_empty(None), Vec::<String>::new());
    assert_eq!(json::list_or_empty(Some(vec!["x".to_string()])), vec!["x"]);
}

#[test]
fn fees_are_taken_in_basis_points() {
    let s = money::split_fee(10_000, 150);
    assert_eq!((s.fee_sats, s.payee_sats), (150, 9_850));
    let s = money::split_fee(99, 150);
    assert_eq!((s.fee_sats, s.payee_sats), (1, 98));
    let s = money::split_fee(-99, 150);
    assert_eq!((s.fee_sats, s.payee_sats), (-1, -98));
    let s = money::split_fee_unsigned(1_234_567, 1000);
    assert_eq!((s.fee_sats, s.payee_sats), (123_456, 1_111_111));
}

#[test]
fn fees_that_overflow_are_told_apart() {
    assert!(money::can_compute_fee(i64::MAX, 1));
    assert!(!money::can_compute_fee(i64::MAX, 2));
    assert!(!money::can_compute_fee(1, u64::MAX));
    assert!(money::can_compute_fee_unsigned(i64::MAX, 2));
    assert!(!money::can_compute_fee_unsigned(i64::MAX, 3));
    assert!(!money::can_compute_fee_unsigned(-1, 1));
}

#[test]
fn a_fee_is_a_part_and_grows_with_the_amount() {
    let mut last = 0;
    for amount in 0..500 {
        let s = money::split_fee(amount, 150);
        assert!(0 <= s.fee_sats && s.fee_sats <= amount);
        assert!(last <= s.fee_sats);
        assert_eq!(money::split_fee(amount, 0).fee_sats, 0);
        last = s.fee_sats;
    }
}

fn no_vars() -> EnvVars {
    EnvVars {
        host: None,
        port: None,
        database_url: None,
        blink_api_key: None,
        blink_wallet_id: None,
        blink_api_url: None,
        nostr_relays: None,
        vapid_subject: None,
        vapid_public_key: None,
        vapid_private_key: None,
        frontend_origin: None,
        rate_limit_rpm: None,
        min_fare_sats: None,
        min_price_per_km_sats: None,
        escrow_fee_bps: None,
    }
}

#[test]
fn configuration_has_defaults() {
    let c = Config::from_env(&no_vars()).ok().unwrap();
    assert_eq!(c.host, "0.0.0.0");
    assert_eq!(c.port, 8080);
    assert_eq!(c.database_url, "sqlite:./ulendo.db");
    assert_eq!(c.blink_api_key, "");
    assert_eq!(c.blink_wallet_id, "");
    assert_eq!(c.blink_api_url, "https://api.blink.sv/graphql");
    assert_eq!(c.nostr_relays, vec!["wss://relay.damus.io"]);
    assert_eq!(c.vapid_subject, "");
    assert_eq!(c.frontend_origin, "http://localhost:5173");
    assert_eq!(c.rate_limit_rpm, 60);
    assert_eq!(c.min_fare_sats, 200);
    assert_eq!(c.min_price_per_km_sats, 50);
    assert_eq!(c.escrow_fee_bps, 150);
}

#[test]
fn configuration_reads_the_environment() {
    let mut vars = no_vars();
    vars.port = Some("9000".to_string());
    vars.nostr_relays = Some("wss://a, wss://b ".to_string());
    vars.rate_limit_rpm = Some("many".to_string());
    vars.min_fare_sats = Some("-5".to_string());
    vars.escrow_fee_bps = Some("a lot".to_string());
    let c = Config::from_env(&vars).ok().unwrap();
    assert_eq!(c.port, 9000);
    assert_eq!(c.nostr_relays, vec!["wss://a", "wss://b"]);
    assert_eq!(c.rate_limit_rpm, 60);
    assert_eq!(c.min_fare_sats, -5);
    assert_eq!(c.escrow_fee_bps, 1000);
}

#[test]
fn a_port_out_of_range_is_an_error() {
    let mut vars = no_vars();
    vars.port = Some("65536".to_string());
    assert_eq!(Config::from_env(&vars).err(), Some("65536".to_string()));
}
