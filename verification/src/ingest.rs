//! The ingestion coordinator: validate, then store, then broadcast — in
//! that order, as one logical step per accepted reading.

use vstd::prelude::*;
use crate::errors::AppError;
use crate::fhir::{observation_json, to_fhir_observation};
use crate::models::{SensorReading, StoredObservation};
use crate::store::{spec_add, valid_reading, validation_reason, AppState};
use crate::ws::Hub;

verus! {

/// Runs one reading through the core: rejected readings leave the state
/// untouched and surface the validation error; accepted readings are
/// stored (evicting FIFO when full) and then broadcast to the hub's
/// subscribers. A broadcast serialization failure never undoes or hides
/// the store: the observation stays queryable and ingest still succeeds.
pub fn ingest_reading(state: &mut AppState, hub: &Hub, reading: SensorReading) -> (r: Result<
    StoredObservation,
    AppError,
>)
    requires
        old(state).wf(),
    ensures
        final(state).wf(),
        !valid_reading(reading) ==> {
            &&& *final(state) == *old(state)
            &&& r matches Err(e) && e matches AppError::Validation(m) && m@ == validation_reason(
                reading,
            )
        },
        valid_reading(reading) ==> {
            &&& r matches Ok(obs)
            &&& obs.reading == reading
            &&& obs.id@.len() == 36
            &&& final(state).observations@ == spec_add(old(state).observations@, obs)
            &&& final(state).observations@.last() == obs
            &&& final(state).demo_patient_id == old(state).demo_patient_id
            &&& final(state).demo_device_id == old(state).demo_device_id
        },
{
    match state.validate(&reading) {
        Err(e) => Err(e),
        Ok(()) => {
            let obs = state.add_reading(reading);
            match to_fhir_observation(&obs) {
                Ok(f) => {
                    match observation_json(&f) {
                        Ok(text) => {
                            hub.broadcast_json(&text);
                        },
                        Err(_) => {
                            // Serialization failure: best-effort broadcast is
                            // dropped; the stored observation stands.
                        },
                    }
                },
                Err(_) => {},
            }
            Ok(obs)
        },
    }
}

} // verus!
