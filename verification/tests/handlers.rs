use sensor_ingest::auth::same_bytes;
use sensor_ingest::auth::AuthGate;
use sensor_ingest::auth::API_KEY_HEADER;
use sensor_ingest::auth::Verdict;
use sensor_ingest::ingest::add_reading;
use sensor_ingest::ingest::conclude_add_reading;
use sensor_ingest::ingest::Ingestion;
use sensor_ingest::query::get_readings;
use sensor_ingest::reading::Measurement;
use sensor_ingest::reading::Reading;
use sensor_ingest::response::Response;

fn values() -> Measurement {
    Measurement {
        eco2: 612,
        ech2o: 3,
        tvoc: 17,
        pm2_5: 8,
        pm10: 12,
        temperature_bits: 19.25f32.to_bits(),
        humidity_bits: 51.5f32.to_bits(),
    }
}

#[test]
fn gate_opens_only_for_the_configured_key() {
    let gate = AuthGate::new(Some("s3cret".to_string()));
    assert_eq!(gate.check(Some("s3cret".as_bytes())), Verdict::Authorized);
    assert_eq!(gate.check(Some("s3cre".as_bytes())), Verdict::Unauthorized);
    assert_eq!(gate.check(Some("s3cret ".as_bytes())), Verdict::Unauthorized);
    assert_eq!(gate.check(Some("S3CRET".as_bytes())), Verdict::Unauthorized);
    assert_eq!(gate.check(Some("s3creT".as_bytes())), Verdict::Unauthorized);
    assert_eq!(gate.check(Some("".as_bytes())), Verdict::Unauthorized);
    assert_eq!(gate.check(None), Verdict::Unauthorized);
}

#[test]
fn gate_compares_every_byte_of_a_multibyte_key() {
    let gate = AuthGate::new(Some("clé-ü".to_string()));
    assert_eq!(gate.check(Some("clé-ü".as_bytes())), Verdict::Authorized);
    assert_eq!(gate.check(Some("cle-u".as_bytes())), Verdict::Unauthorized);
    assert_eq!(gate.check(Some("clé-u".as_bytes())), Verdict::Unauthorized);
}

#[test]
fn gate_takes_header_bytes_that_are_not_text() {
    let gate = AuthGate::new(Some("s3cret".to_string()));
    assert_eq!(gate.check(Some(&[0xff, 0xfe])), Verdict::Unauthorized);
    assert_eq!(gate.check(Some(&[b's', b'3', b'c', b'r', b'e', b't'])), Verdict::Authorized);
    assert_eq!(gate.check(Some(&[b's', b'3', b'c', b'r', b'e', b't', 0])), Verdict::Unauthorized);
    let accented = AuthGate::new(Some("é".to_string()));
    assert_eq!(accented.check(Some(&[0xc3, 0xa9])), Verdict::Authorized);
    assert_eq!(accented.check(Some(&[0xe9])), Verdict::Unauthorized);
}

#[test]
fn key_header_name_is_fixed() {
    assert_eq!(API_KEY_HEADER, "x-api-key");
}

#[test]
fn gate_without_secret_is_misconfigured() {
    assert_eq!(AuthGate::new(None).check(Some("s3cret".as_bytes())), Verdict::Misconfigured);
    assert_eq!(AuthGate::new(None).check(None), Verdict::Misconfigured);
    assert_eq!(AuthGate::new(Some(String::new())).check(Some("".as_bytes())), Verdict::Misconfigured);
    assert_eq!(AuthGate::new(Some(String::new())).check(None), Verdict::Misconfigured);
    assert_eq!(AuthGate::new(Some(String::new())).check(Some("x".as_bytes())), Verdict::Misconfigured);
}

#[test]
fn same_bytes_is_equality_of_byte_strings() {
    assert!(same_bytes(b"", b""));
    assert!(same_bytes(b"abc", b"abc"));
    assert!(!same_bytes(b"abc", b"abd"));
    assert!(!same_bytes(b"abc", b"xbc"));
    assert!(!same_bytes(b"abc", b"ab"));
    assert!(!same_bytes(b"", b"a"));
}

#[test]
fn add_reading_asks_for_an_insert_of_the_seven_values() {
    let gate = AuthGate::new(Some("s3cret".to_string()));
    let payload = Reading { id: Some(9), timestamp: Some("then".to_string()), values: values() };
    assert_eq!(add_reading(&gate, Some("s3cret".as_bytes()), &payload), Ingestion::Insert(values()));
    assert_eq!(
        add_reading(&gate, Some("s3cret".as_bytes()), &Reading::submission(values())),
        Ingestion::Insert(values())
    );
}

#[test]
fn add_reading_rejects_before_any_write() {
    let gate = AuthGate::new(Some("s3cret".to_string()));
    let payload = Reading::submission(values());
    assert_eq!(add_reading(&gate, Some("nope".as_bytes()), &payload), Ingestion::Reject(Response::Unauthorized));
    assert_eq!(add_reading(&gate, None, &payload), Ingestion::Reject(Response::Unauthorized));
    let closed = AuthGate::new(None);
    assert_eq!(
        add_reading(&closed, Some("s3cret".as_bytes()), &payload),
        Ingestion::Reject(Response::Misconfigured)
    );
    assert_eq!(add_reading(&closed, None, &payload), Ingestion::Reject(Response::Misconfigured));
}

#[test]
fn conclude_add_reading_reports_the_outcome_of_the_insert() {
    assert_eq!(conclude_add_reading(Ok(())), Response::Success);
    let failed = conclude_add_reading(Err("connection refused".to_string()));
    assert_eq!(failed, Response::StorageFailure("connection refused".to_string()));
    assert_eq!(failed.status_code(), 500);
    assert_eq!(failed.status(), "error");
    assert_eq!(failed.message(), Some("connection refused".to_string()));
}

#[test]
fn get_readings_serves_what_was_fetched() {
    let rows = vec![
        Reading::stored(2, "b".to_string(), values()),
        Reading::stored(1, "a".to_string(), Measurement::zero()),
    ];
    let fetched: Result<Vec<Reading>, String> = Ok(rows.clone());
    assert_eq!(get_readings(fetched), rows);
    let nothing: Result<Vec<Reading>, String> = Ok(Vec::new());
    assert_eq!(get_readings(nothing), Vec::<Reading>::new());
}

#[test]
fn get_readings_swallows_a_failed_fetch() {
    let failed: Result<Vec<Reading>, String> = Err("pool timed out".to_string());
    assert_eq!(get_readings(failed), Vec::<Reading>::new());
    let failed: Result<Vec<Reading>, u8> = Err(3);
    assert_eq!(get_readings(failed), Vec::<Reading>::new());
}

#[test]
fn response_members_are_exact() {
    assert_eq!(Response::Success.status_code(), 200);
    assert_eq!(Response::Unauthorized.status_code(), 401);
    assert_eq!(Response::Misconfigured.status_code(), 500);
    assert_eq!(Response::StorageFailure(String::new()).status_code(), 500);
    assert_eq!(Response::Success.status(), "success");
    assert_eq!(Response::Unauthorized.status(), "error");
    assert_eq!(Response::Misconfigured.status(), "error");
    assert_eq!(Response::StorageFailure("x".to_string()).status(), "error");
    assert_eq!(Response::Success.message(), None);
    assert_eq!(Response::Unauthorized.message(), Some("unauthorized".to_string()));
    assert_eq!(Response::Misconfigured.message(), Some("server misconfigured".to_string()));
    assert_eq!(
        Response::StorageFailure("disk \"full\"".to_string()).message(),
        Some("disk \"full\"".to_string())
    );
}
