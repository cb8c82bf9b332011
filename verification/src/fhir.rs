//! FHIR-shaped views of observations, and the verified rendering of an
//! observation to the JSON payload the hub broadcasts.

#![allow(non_snake_case)]

use vstd::prelude::*;
use vstd::string::StringExecFns;
use crate::errors::AppError;
use crate::models::{SignalCode, StoredObservation};
use crate::text::{append_json_escaped, append_milli, escape_str, milli_str};

verus! {

/// A reference to another resource, such as a patient or device.
#[derive(Debug)]
pub struct FhirReference {
    pub reference: String,
}

/// A human-readable coding of what was observed.
#[derive(Debug)]
pub struct FhirCode {
    pub text: String,
}

/// The measured value and its unit; the value is held in thousandths.
#[derive(Debug)]
pub struct FhirValueQuantity {
    pub value_milli: i64,
    pub unit: String,
}

/// One observation in FHIR shape. The timestamp is held as milliseconds
/// since the Unix epoch and rendered as RFC 3339 text when serialized.
#[derive(Debug)]
pub struct FhirObservation {
    pub resourceType: &'static str,
    pub id: String,
    pub status: &'static str,
    pub code: FhirCode,
    pub subject: FhirReference,
    pub device: FhirReference,
    pub effectiveDateTime: i64,
    pub valueQuantity: FhirValueQuantity,
}

/// One entry of a bundle.
#[derive(Debug)]
pub struct FhirBundleEntry<T> {
    pub resource: T,
}

/// A search-result bundle of resources.
#[derive(Debug)]
pub struct FhirBundle<T> {
    pub resourceType: &'static str,
    pub bundle_type: &'static str,
    pub total: usize,
    pub entry: Vec<FhirBundleEntry<T>>,
}

/// The display name of a signal kind.
pub open spec fn spec_signal_name(code: SignalCode) -> Seq<char> {
    match code {
        SignalCode::HeartRate => "Heart Rate"@,
        SignalCode::BodyTemperature => "Body Temperature"@,
        SignalCode::StepsPerMinute => "Steps per Minute"@,
    }
}

/// The display name of a signal kind.
pub fn signal_name(code: SignalCode) -> (r: &'static str)
    ensures
        r@ == spec_signal_name(code),
{
    match code {
        SignalCode::HeartRate => "Heart Rate",
        SignalCode::BodyTemperature => "Body Temperature",
        SignalCode::StepsPerMinute => "Steps per Minute",
    }
}

/// The FHIR view `f` faithfully renders the stored observation `o`.
pub open spec fn fhir_obs_matches(f: FhirObservation, o: StoredObservation) -> bool {
    &&& f.resourceType@ == "Observation"@
    &&& f.id@ == o.id@
    &&& f.status@ == "final"@
    &&& f.code.text@ == spec_signal_name(o.reading.code)
    &&& f.subject.reference@ == "Patient/"@ + o.reading.patient_id@
    &&& f.device.reference@ == "Device/"@ + o.reading.device_id@
    &&& f.effectiveDateTime == o.reading.ts_millis
    &&& f.valueQuantity.value_milli == o.reading.value_milli
    &&& f.valueQuantity.unit@ == o.reading.unit@
}

/// Maps a stored observation to its FHIR shape; never fails.
pub fn to_fhir_observation(obs: &StoredObservation) -> (r: Result<FhirObservation, AppError>)
    ensures
        r matches Ok(f) && fhir_obs_matches(f, *obs),
{
    let mut subject = String::from_str("Patient/");
    subject.append(obs.reading.patient_id.as_str());
    let mut device = String::from_str("Device/");
    device.append(obs.reading.device_id.as_str());
    Ok(
        FhirObservation {
            resourceType: "Observation",
            id: obs.id.clone(),
            status: "final",
            code: FhirCode { text: String::from_str(signal_name(obs.reading.code)) },
            subject: FhirReference { reference: subject },
            device: FhirReference { reference: device },
            effectiveDateTime: obs.reading.ts_millis,
            valueQuantity: FhirValueQuantity {
                value_milli: obs.reading.value_milli,
                unit: obs.reading.unit.clone(),
            },
        },
    )
}

/// Wraps a sequence of stored observations in a search-result bundle;
/// never fails.
pub fn to_bundle(observations: &[StoredObservation]) -> (r: Result<
    FhirBundle<FhirObservation>,
    AppError,
>)
    ensures
        r matches Ok(b) && b.resourceType@ == "Bundle"@ && b.bundle_type@ == "searchset"@
            && b.total == observations@.len() && b.entry@.len() == observations@.len() && forall|
            i: int,
        | 0 <= i < observations@.len() ==> fhir_obs_matches(b.entry@[i].resource, observations@[i]),
{
    let n = observations.len();
    let mut entry: Vec<FhirBundleEntry<FhirObservation>> = Vec::new();
    let mut i: usize = 0;
    while i < n
        invariant
            n == observations@.len(),
            0 <= i <= n,
            entry@.len() == i,
            forall|j: int| 0 <= j < i ==> fhir_obs_matches(entry@[j].resource, observations@[j]),
        decreases n - i,
    {
        let f = match to_fhir_observation(&observations[i]) {
            Ok(f) => f,
            Err(e) => {
                return Err(e);
            },
        };
        entry.push(FhirBundleEntry { resource: f });
        i += 1;
    }
    Ok(FhirBundle { resourceType: "Bundle", bundle_type: "searchset", total: n, entry })
}

/// The RFC 3339 rendering of a timestamp in milliseconds since the Unix
/// epoch; a pure function of the timestamp, computed by the time library.
pub uninterp spec fn rfc3339_of(ts_millis: int) -> Seq<char>;

/// Midnight, January 1 of year 1, in milliseconds since the Unix epoch:
/// the low end of the timestamp range guaranteed to render.
pub const RFC3339_TS_MIN: i64 = -62135596800000;

/// The last millisecond of year 9999, in milliseconds since the Unix
/// epoch: the high end of the timestamp range guaranteed to render.
pub const RFC3339_TS_MAX: i64 = 253402300799999;

/// Relies on `chrono::DateTime::<Utc>::from_timestamp_millis` and
/// `DateTime::to_rfc3339`: the rendering depends on the timestamp alone,
/// and `None` comes only from a timestamp outside chrono's representable
/// range of roughly 262,000 years around the epoch — so every timestamp
/// in years 1 through 9999 renders.
#[verifier::external_body]
fn format_rfc3339_millis(ts_millis: i64) -> (r: Option<String>)
    ensures
        r matches Some(s) ==> s@ == rfc3339_of(ts_millis as int),
        RFC3339_TS_MIN <= ts_millis <= RFC3339_TS_MAX ==> r is Some,
{
    match chrono::DateTime::<chrono::Utc>::from_timestamp_millis(ts_millis) {
        Some(dt) => Some(dt.to_rfc3339()),
        None => None,
    }
}

/// The JSON text of an observation: fixed scaffolding around the escaped
/// field values, the RFC 3339 timestamp, and the fixed-point value. The
/// `resourceType` and `status` fields are fixed tokens and appear raw.
pub open spec fn obs_json_text(f: FhirObservation) -> Seq<char> {
    "{\"resourceType\":\""@ + f.resourceType@ + "\",\"id\":\""@ + escape_str(f.id@)
        + "\",\"status\":\""@ + f.status@ + "\",\"code\":{\"text\":\""@ + escape_str(f.code.text@)
        + "\"},\"subject\":{\"reference\":\""@ + escape_str(f.subject.reference@)
        + "\"},\"device\":{\"reference\":\""@ + escape_str(f.device.reference@)
        + "\"},\"effectiveDateTime\":\""@ + rfc3339_of(f.effectiveDateTime as int)
        + "\",\"valueQuantity\":{\"value\":"@ + milli_str(f.valueQuantity.value_milli as int)
        + ",\"unit\":\""@ + escape_str(f.valueQuantity.unit@) + "\"}}"@
}

/// Serializes an observation to its JSON payload. Fails only with
/// `Internal`, and only when the timestamp cannot be rendered; any
/// timestamp within years 1 through 9999 is guaranteed to serialize.
pub fn observation_json(f: &FhirObservation) -> (r: Result<String, AppError>)
    ensures
        r matches Ok(s) ==> s@ == obs_json_text(*f),
        r matches Err(e) ==> e == AppError::Internal,
        RFC3339_TS_MIN <= f.effectiveDateTime <= RFC3339_TS_MAX ==> r is Ok,
{
    let ts = match format_rfc3339_millis(f.effectiveDateTime) {
        Some(t) => t,
        None => {
            return Err(AppError::Internal);
        },
    };
    let mut out = String::from_str("{\"resourceType\":\"");
    out.append(f.resourceType);
    out.append("\",\"id\":\"");
    append_json_escaped(&mut out, f.id.as_str());
    out.append("\",\"status\":\"");
    out.append(f.status);
    out.append("\",\"code\":{\"text\":\"");
    append_json_escaped(&mut out, f.code.text.as_str());
    out.append("\"},\"subject\":{\"reference\":\"");
    append_json_escaped(&mut out, f.subject.reference.as_str());
    out.append("\"},\"device\":{\"reference\":\"");
    append_json_escaped(&mut out, f.device.reference.as_str());
    out.append("\"},\"effectiveDateTime\":\"");
    out.append(ts.as_str());
    out.append("\",\"valueQuantity\":{\"value\":");
    append_milli(&mut out, f.valueQuantity.value_milli);
    out.append(",\"unit\":\"");
    append_json_escaped(&mut out, f.valueQuantity.unit.as_str());
    out.append("\"}}");
    proof {
        assert(out@ =~= obs_json_text(*f));
    }
    Ok(out)
}

} // verus!
