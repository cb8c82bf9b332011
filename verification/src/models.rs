//! Data model: sensor readings, signal kinds, and stored observations.
//!
//! A reading's numeric value is carried in thousandths (`value_milli`) and
//! its timestamp as milliseconds since the Unix epoch (`ts_millis`), so the
//! validation and query logic works on plain integers.

use vstd::prelude::*;
use crate::text::str_eq;

verus! {

/// The kind of signal a reading reports.
#[derive(Debug, Clone, Copy, PartialEq, Eq, Structural)]
pub enum SignalCode {
    HeartRate,
    BodyTemperature,
    StepsPerMinute,
}

impl SignalCode {
    /// The kebab-case wire name of this signal kind.
    pub fn as_str(&self) -> (r: &'static str)
        ensures
            r@ == self.spec_str(),
    {
        match self {
            SignalCode::HeartRate => "heart-rate",
            SignalCode::BodyTemperature => "body-temperature",
            SignalCode::StepsPerMinute => "steps-per-minute",
        }
    }

    /// The wire name as a sequence of characters.
    pub open spec fn spec_str(self) -> Seq<char> {
        match self {
            SignalCode::HeartRate => "heart-rate"@,
            SignalCode::BodyTemperature => "body-temperature"@,
            SignalCode::StepsPerMinute => "steps-per-minute"@,
        }
    }
}

/// The signal kind a wire name denotes, or `None` for an unknown name.
pub open spec fn spec_parse_code(s: Seq<char>) -> Option<SignalCode> {
    if s == "heart-rate"@ {
        Some(SignalCode::HeartRate)
    } else if s == "body-temperature"@ {
        Some(SignalCode::BodyTemperature)
    } else if s == "steps-per-minute"@ {
        Some(SignalCode::StepsPerMinute)
    } else {
        None
    }
}

/// Parses a kebab-case wire name back to its signal kind; the inverse of
/// `SignalCode::as_str`.
pub fn parse_code(code: &str) -> (r: Option<SignalCode>)
    ensures
        r == spec_parse_code(code@),
{
    if str_eq(code, "heart-rate") {
        Some(SignalCode::HeartRate)
    } else if str_eq(code, "body-temperature") {
        Some(SignalCode::BodyTemperature)
    } else if str_eq(code, "steps-per-minute") {
        Some(SignalCode::StepsPerMinute)
    } else {
        None
    }
}

/// Round trip: parsing the wire name of any signal kind gives that kind
/// back.
pub proof fn lemma_code_name_round_trip(c: SignalCode)
    ensures
        spec_parse_code(c.spec_str()) == Some(c),
{
    reveal_strlit("heart-rate");
    reveal_strlit("body-temperature");
    reveal_strlit("steps-per-minute");
    match c {
        SignalCode::HeartRate => {
            assert(spec_parse_code("heart-rate"@) == Some(SignalCode::HeartRate));
        },
        SignalCode::BodyTemperature => {
            assert("body-temperature"@.len() == 16);
            assert("heart-rate"@.len() == 10);
            assert("body-temperature"@ != "heart-rate"@);
            assert(spec_parse_code("body-temperature"@) == Some(SignalCode::BodyTemperature));
        },
        SignalCode::StepsPerMinute => {
            assert("steps-per-minute"@.len() == 16);
            assert("heart-rate"@.len() == 10);
            assert("steps-per-minute"@ != "heart-rate"@);
            assert("steps-per-minute"@[0] == 's');
            assert("body-temperature"@[0] == 'b');
            assert("steps-per-minute"@ != "body-temperature"@);
            assert(spec_parse_code("steps-per-minute"@) == Some(SignalCode::StepsPerMinute));
        },
    }
}

/// One submitted sensor reading, before it has been accepted.
///
/// `value_milli` holds the numeric value in thousandths (72.5 is 72500);
/// `ts_millis` holds the UTC timestamp in milliseconds since the epoch.
#[derive(Debug)]
pub struct SensorReading {
    pub device_id: String,
    pub patient_id: String,
    pub code: SignalCode,
    pub value_milli: i64,
    pub unit: String,
    pub ts_millis: i64,
}

/// Field-wise equality of two readings; string fields compare by their
/// character sequences.
pub open spec fn reading_eq(a: SensorReading, b: SensorReading) -> bool {
    &&& a.device_id@ == b.device_id@
    &&& a.patient_id@ == b.patient_id@
    &&& a.code == b.code
    &&& a.value_milli == b.value_milli
    &&& a.unit@ == b.unit@
    &&& a.ts_millis == b.ts_millis
}

impl PartialEq for SensorReading {
    fn eq(&self, other: &Self) -> (r: bool) {
        self.device_id == other.device_id && self.patient_id == other.patient_id && self.code
            == other.code && self.value_milli == other.value_milli && self.unit == other.unit
            && self.ts_millis == other.ts_millis
    }
}

impl vstd::std_specs::cmp::PartialEqSpecImpl for SensorReading {
    open spec fn obeys_eq_spec() -> bool {
        true
    }

    open spec fn eq_spec(&self, other: &Self) -> bool {
        reading_eq(*self, *other)
    }
}

impl Clone for SensorReading {
    /// An exact copy of the reading.
    fn clone(&self) -> (r: Self)
        ensures
            r == *self,
    {
        SensorReading {
            device_id: self.device_id.clone(),
            patient_id: self.patient_id.clone(),
            code: self.code,
            value_milli: self.value_milli,
            unit: self.unit.clone(),
            ts_millis: self.ts_millis,
        }
    }
}

/// A reading that has been accepted and given a system-assigned identifier.
#[derive(Debug)]
pub struct StoredObservation {
    pub id: String,
    pub reading: SensorReading,
}

/// Field-wise equality of two stored observations, identifier included.
pub open spec fn obs_eq(a: StoredObservation, b: StoredObservation) -> bool {
    a.id@ == b.id@ && reading_eq(a.reading, b.reading)
}

impl PartialEq for StoredObservation {
    fn eq(&self, other: &Self) -> (r: bool) {
        self.id == other.id && self.reading == other.reading
    }
}

impl vstd::std_specs::cmp::PartialEqSpecImpl for StoredObservation {
    open spec fn obeys_eq_spec() -> bool {
        true
    }

    open spec fn eq_spec(&self, other: &Self) -> bool {
        obs_eq(*self, *other)
    }
}

impl Clone for StoredObservation {
    /// An exact copy of the observation, identifier included.
    fn clone(&self) -> (r: Self)
        ensures
            r == *self,
    {
        StoredObservation { id: self.id.clone(), reading: self.reading.clone() }
    }
}

} // verus!
