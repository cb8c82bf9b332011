use pulsesense::errors::AppError;
use pulsesense::ingest::ingest_reading;
use pulsesense::models::parse_code;
use pulsesense::models::{SensorReading, SignalCode, StoredObservation};
use pulsesense::store::AppState;
use pulsesense::ws::Hub;
use std::collections::HashSet;

fn reading(code: SignalCode, value_milli: i64, unit: &str, ts_millis: i64) -> SensorReading {
    SensorReading {
        device_id: "device-001".to_string(),
        patient_id: "patient-001".to_string(),
        code,
        value_milli,
        unit: unit.to_string(),
        ts_millis,
    }
}

fn hr(value_milli: i64, ts_millis: i64) -> SensorReading {
    reading(SignalCode::HeartRate, value_milli, "bpm", ts_millis)
}

fn validation_message(res: Result<(), AppError>) -> String {
    match res {
        Err(AppError::Validation(m)) => m,
        other => panic!("expected a validation error, got {:?}", other),
    }
}

#[test]
fn validate_accepts_in_range_heart_rate() {
    let s = AppState::new_demo();
    assert!(s.validate(&hr(72000, 1)).is_ok());
    assert!(s.validate(&reading(SignalCode::HeartRate, 20000, "beats/min", 1)).is_ok());
    assert!(s.validate(&reading(SignalCode::HeartRate, 240000, "bpm", 1)).is_ok());
}

#[test]
fn validate_rejects_low_heart_rate() {
    let s = AppState::new_demo();
    let m = validation_message(s.validate(&hr(10000, 1)));
    assert_eq!(m, "heart-rate out of range (20..240)");
}

#[test]
fn validate_rejects_bad_heart_rate_unit() {
    let s = AppState::new_demo();
    let m = validation_message(s.validate(&reading(SignalCode::HeartRate, 72000, "mmHg", 1)));
    assert_eq!(m, "heart-rate unit should be 'beats/min' or 'bpm'");
}

#[test]
fn validate_rejects_blank_identifiers() {
    let s = AppState::new_demo();
    let mut r = hr(72000, 1);
    r.device_id = "   ".to_string();
    let m = validation_message(s.validate(&r));
    assert_eq!(m, "device_id and patient_id are required");

    let mut r2 = hr(72000, 1);
    r2.patient_id = String::new();
    assert!(s.validate(&r2).is_err());
}

#[test]
fn validate_body_temperature_rules() {
    let s = AppState::new_demo();
    assert!(s.validate(&reading(SignalCode::BodyTemperature, 36600, "C", 1)).is_ok());
    assert!(s.validate(&reading(SignalCode::BodyTemperature, 36600, "\u{b0}C", 1)).is_ok());
    let m = validation_message(s.validate(&reading(SignalCode::BodyTemperature, 29000, "C", 1)));
    assert_eq!(m, "body-temperature out of range (30..45)");
    let m2 = validation_message(s.validate(&reading(SignalCode::BodyTemperature, 36600, "K", 1)));
    assert_eq!(m2, "body-temperature unit should be 'C' or '\u{b0}C'");
}

#[test]
fn validate_steps_rules() {
    let s = AppState::new_demo();
    assert!(s.validate(&reading(SignalCode::StepsPerMinute, 0, "steps/min", 1)).is_ok());
    assert!(s.validate(&reading(SignalCode::StepsPerMinute, 400000, "steps/min", 1)).is_ok());
    let m = validation_message(s.validate(&reading(SignalCode::StepsPerMinute, 400001, "steps/min", 1)));
    assert_eq!(m, "steps-per-minute out of range (0..400)");
    let m2 = validation_message(s.validate(&reading(SignalCode::StepsPerMinute, 100000, "steps", 1)));
    assert_eq!(m2, "steps-per-minute unit should be 'steps/min'");
}

#[test]
fn add_assigns_id_and_appends() {
    let mut s = AppState::new_demo();
    let obs = s.add_reading(hr(72000, 5));
    assert_eq!(obs.id.len(), 36);
    assert_eq!(s.observations.len(), 1);
    assert_eq!(s.observations.back().unwrap(), &obs);
}

#[test]
fn add_evicts_oldest_first() {
    let mut s = AppState::new_demo();
    for i in 0..2001i64 {
        s.add_reading(hr(72000, i));
    }
    assert_eq!(s.observations.len(), 2000);
    // The one evicted entry is the chronologically first (ts 0).
    assert_eq!(s.observations.front().unwrap().reading.ts_millis, 1);
    assert_eq!(s.observations.back().unwrap().reading.ts_millis, 2000);
}

#[test]
fn many_distinct_adds_keep_min_n_cap_entries_with_unique_ids() {
    let mut s = AppState::new_demo();
    for i in 0..2500i64 {
        s.add_reading(hr(72000, i));
    }
    assert_eq!(s.observations.len(), 2000);
    let ids: HashSet<String> = s.observations.iter().map(|o| o.id.clone()).collect();
    assert_eq!(ids.len(), 2000);
    // Nothing is dropped beyond the FIFO policy: the survivors are exactly
    // the most recent 2000, still in order.
    for (k, o) in s.observations.iter().enumerate() {
        assert_eq!(o.reading.ts_millis, 500 + k as i64);
    }
}

#[test]
fn query_returns_most_recent_limit_in_ascending_order() {
    let mut s = AppState::new_demo();
    let mut stored: Vec<StoredObservation> = Vec::new();
    for t in [1i64, 2, 3, 4, 5] {
        stored.push(s.add_reading(hr(72000, t)));
    }
    let r = s.query(None, 2, None, None);
    assert_eq!(r.len(), 2);
    assert_eq!(r[0].reading.ts_millis, 4);
    assert_eq!(r[1].reading.ts_millis, 5);
    // Round trip: the returned observations are identical to what add
    // returned, id included.
    assert_eq!(r[0], stored[3]);
    assert_eq!(r[1], stored[4]);
}

#[test]
fn query_sorts_out_of_order_timestamps_ascending() {
    let mut s = AppState::new_demo();
    for t in [5i64, 1, 4, 2, 3] {
        s.add_reading(hr(72000, t));
    }
    let r = s.query(None, 100, None, None);
    assert_eq!(r.len(), 5);
    for k in 1..r.len() {
        assert!(r[k - 1].reading.ts_millis <= r[k].reading.ts_millis);
    }
}

#[test]
fn query_filters_by_kind_and_time() {
    let mut s = AppState::new_demo();
    s.add_reading(hr(72000, 10));
    s.add_reading(reading(SignalCode::BodyTemperature, 36600, "C", 20));
    s.add_reading(hr(80000, 30));
    s.add_reading(reading(SignalCode::StepsPerMinute, 90000, "steps/min", 40));

    let only_hr = s.query(Some(SignalCode::HeartRate), 100, None, None);
    assert_eq!(only_hr.len(), 2);
    assert_eq!(only_hr[0].reading.ts_millis, 10);
    assert_eq!(only_hr[1].reading.ts_millis, 30);

    let windowed = s.query(None, 100, Some(15), Some(35));
    assert_eq!(windowed.len(), 2);
    assert_eq!(windowed[0].reading.ts_millis, 20);
    assert_eq!(windowed[1].reading.ts_millis, 30);
}

#[test]
fn query_empty_window_or_no_match_yields_empty() {
    let mut s = AppState::new_demo();
    assert!(s.query(None, 10, None, None).is_empty());
    s.add_reading(hr(72000, 10));
    assert!(s.query(Some(SignalCode::StepsPerMinute), 10, None, None).is_empty());
    assert!(s.query(None, 10, Some(11), None).is_empty());
    assert!(s.query(None, 0, None, None).is_empty());
}

#[test]
fn query_clamps_limit_to_global_maximum() {
    let mut s = AppState::new_demo();
    for i in 0..2000i64 {
        s.add_reading(hr(72000, i));
    }
    let r = s.query(None, usize::MAX, None, None);
    assert_eq!(r.len(), 2000);
}

#[test]
fn ingest_rejects_without_state_change() {
    let mut s = AppState::new_demo();
    let hub = Hub::new();
    let res = ingest_reading(&mut s, &hub, hr(10000, 1));
    match res {
        Err(AppError::Validation(m)) => assert_eq!(m, "heart-rate out of range (20..240)"),
        other => panic!("expected a validation error, got {:?}", other),
    }
    assert_eq!(s.observations.len(), 0);
}

#[test]
fn ingest_stores_then_returns_the_stored_observation() {
    let mut s = AppState::new_demo();
    let hub = Hub::new();
    let obs = ingest_reading(&mut s, &hub, hr(72000, 7)).expect("valid reading must be accepted");
    assert_eq!(s.observations.len(), 1);
    let r = s.query(None, 10, None, None);
    assert_eq!(r.len(), 1);
    assert_eq!(r[0], obs);
}

#[test]
fn signal_code_wire_names() {
    assert_eq!(SignalCode::HeartRate.as_str(), "heart-rate");
    assert_eq!(SignalCode::BodyTemperature.as_str(), "body-temperature");
    assert_eq!(SignalCode::StepsPerMinute.as_str(), "steps-per-minute");
}

#[test]
fn parse_code_inverts_wire_names() {
    for code in [
        SignalCode::HeartRate,
        SignalCode::BodyTemperature,
        SignalCode::StepsPerMinute,
    ] {
        let parsed = parse_code(code.as_str()).expect("wire name must parse");
        assert_eq!(parsed.as_str(), code.as_str());
    }
    assert!(parse_code("blood-pressure").is_none());
    assert!(parse_code("").is_none());
}

#[test]
fn error_messages() {
    assert_eq!(AppError::Unauthorized.message(), "unauthorized");
    assert_eq!(AppError::Internal.message(), "internal error");
    assert_eq!(
        AppError::Validation("nope".to_string()).message(),
        "validation error: nope"
    );
}
