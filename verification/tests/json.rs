use pulsesense::errors::AppError;
use pulsesense::fhir::{observation_json, signal_name, to_bundle, to_fhir_observation};
use pulsesense::models::{SensorReading, SignalCode, StoredObservation};
use pulsesense::text::{append_dec_u64, append_json_escaped, append_milli, str_eq, str_is_blank};

fn obs(id: &str, device: &str, patient: &str, code: SignalCode, value_milli: i64, unit: &str, ts_millis: i64) -> StoredObservation {
    StoredObservation {
        id: id.to_string(),
        reading: SensorReading {
            device_id: device.to_string(),
            patient_id: patient.to_string(),
            code,
            value_milli,
            unit: unit.to_string(),
            ts_millis,
        },
    }
}

#[test]
fn observation_json_exact_text() {
    let o = obs(
        "0f14d0ab-9605-4a62-a9e4-5ed26688389b",
        "device-001",
        "patient-001",
        SignalCode::HeartRate,
        72500,
        "bpm",
        947638923004,
    );
    let f = to_fhir_observation(&o).unwrap();
    let text = observation_json(&f).unwrap();
    assert_eq!(
        text,
        "{\"resourceType\":\"Observation\",\"id\":\"0f14d0ab-9605-4a62-a9e4-5ed26688389b\",\
         \"status\":\"final\",\"code\":{\"text\":\"Heart Rate\"},\
         \"subject\":{\"reference\":\"Patient/patient-001\"},\
         \"device\":{\"reference\":\"Device/device-001\"},\
         \"effectiveDateTime\":\"2000-01-12T01:02:03.004+00:00\",\
         \"valueQuantity\":{\"value\":72.5,\"unit\":\"bpm\"}}"
    );
}

#[test]
fn observation_json_escapes_field_text() {
    let o = obs(
        "id-1",
        "dev\"ice\\one",
        "p\n1",
        SignalCode::BodyTemperature,
        36600,
        "\u{b0}C",
        0,
    );
    let f = to_fhir_observation(&o).unwrap();
    let text = observation_json(&f).unwrap();
    assert!(text.contains("\"reference\":\"Device/dev\\\"ice\\\\one\""));
    assert!(text.contains("\"reference\":\"Patient/p\\n1\""));
    assert!(text.contains("\"effectiveDateTime\":\"1970-01-01T00:00:00+00:00\""));
    assert!(text.contains("\"value\":36.6"));
    // The escaped payload still parses back to the original field values.
    let v: serde_json::Value = serde_json::from_str(&text).unwrap();
    assert_eq!(v["device"]["reference"], "Device/dev\"ice\\one");
    assert_eq!(v["subject"]["reference"], "Patient/p\n1");
}

#[test]
fn milli_rendering_edge_cases() {
    let cases: Vec<(i64, &str)> = vec![
        (0, "0"),
        (5000, "5"),
        (72500, "72.5"),
        (36600, "36.6"),
        (36610, "36.61"),
        (36615, "36.615"),
        (-3010, "-3.01"),
        (999, "0.999"),
        (-999, "-0.999"),
        (1000000, "1000"),
    ];
    for (v, want) in cases {
        let mut s = String::new();
        append_milli(&mut s, v);
        assert_eq!(s, want, "rendering of {}", v);
    }
}

#[test]
fn decimal_rendering_edge_cases() {
    let mut s = String::new();
    append_dec_u64(&mut s, 0);
    assert_eq!(s, "0");
    let mut big = String::new();
    append_dec_u64(&mut big, u64::MAX);
    assert_eq!(big, "18446744073709551615");
}

#[test]
fn escaping_control_characters() {
    let mut s = String::new();
    append_json_escaped(&mut s, "a\u{1}b\tc");
    assert_eq!(s, "a\\u0001b\\tc");
}

#[test]
fn string_helpers() {
    assert!(str_is_blank(""));
    assert!(str_is_blank(" \t\r\n\u{a0}"));
    assert!(!str_is_blank(" x "));
    assert!(str_eq("abc", "abc"));
    assert!(!str_eq("abc", "abd"));
    assert!(!str_eq("abc", "ab"));
    assert!(str_eq("\u{b0}C", "\u{b0}C"));
}

#[test]
fn signal_names() {
    assert_eq!(signal_name(SignalCode::HeartRate), "Heart Rate");
    assert_eq!(signal_name(SignalCode::BodyTemperature), "Body Temperature");
    assert_eq!(signal_name(SignalCode::StepsPerMinute), "Steps per Minute");
}

#[test]
fn bundle_wraps_every_observation() {
    let a = obs("a", "d", "p", SignalCode::HeartRate, 72000, "bpm", 1);
    let b = obs("b", "d", "p", SignalCode::StepsPerMinute, 90000, "steps/min", 2);
    let bundle = to_bundle(&[a, b]).unwrap();
    assert_eq!(bundle.resourceType, "Bundle");
    assert_eq!(bundle.bundle_type, "searchset");
    assert_eq!(bundle.total, 2);
    assert_eq!(bundle.entry.len(), 2);
    assert_eq!(bundle.entry[0].resource.id, "a");
    assert_eq!(bundle.entry[1].resource.id, "b");
    assert_eq!(bundle.entry[1].resource.code.text, "Steps per Minute");
}

#[test]
fn timestamps_through_year_9999_serialize() {
    // The documented range within which serialization is promised to
    // succeed, tested at both ends.
    let early = obs("x", "d", "p", SignalCode::HeartRate, 72000, "bpm", -62135596800000);
    let text = observation_json(&to_fhir_observation(&early).unwrap()).unwrap();
    assert!(text.contains("\"effectiveDateTime\":\"0001-01-01T00:00:00+00:00\""));

    let late = obs("x", "d", "p", SignalCode::HeartRate, 72000, "bpm", 253402300799999);
    let text = observation_json(&to_fhir_observation(&late).unwrap()).unwrap();
    assert!(text.contains("\"effectiveDateTime\":\"9999-12-31T23:59:59.999+00:00\""));
}

#[test]
fn out_of_range_timestamp_is_an_internal_error() {
    let o = obs("x", "d", "p", SignalCode::HeartRate, 72000, "bpm", i64::MAX);
    let f = to_fhir_observation(&o).unwrap();
    match observation_json(&f) {
        Err(AppError::Internal) => {}
        other => panic!("expected an internal error, got {:?}", other),
    }
}
