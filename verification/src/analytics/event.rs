use vstd::prelude::*;
use uuid::Uuid;

verus! {

#[verifier::external_type_specification]
#[verifier::external_body]
pub struct ExUuid(Uuid);

pub const EXPOSURE_SCHEMA_VERSION: u16 = 1;

/// An entity was shown a variant (or none) of an experiment.
pub struct ExposureEvent {
    pub event_id: Uuid,
    pub schema_version: u16,
    pub ts_ms: i64,
    pub company_id: String,
    pub experiment_id: String,
    pub variant_key: Option<String>,
    pub entity_id: String,
}

impl ExposureEvent {
    /// A new event with the given id (drawn by the caller, a random UUID
    /// in the service) and the current schema version.
    pub fn new(
        event_id: Uuid,
        ts_ms: i64,
        company_id: String,
        experiment_id: String,
        variant_key: Option<String>,
        entity_id: String,
    ) -> (r: Self)
        ensures
            r.event_id == event_id,
            r.schema_version == EXPOSURE_SCHEMA_VERSION,
            r.ts_ms == ts_ms,
            r.company_id == company_id,
            r.experiment_id == experiment_id,
            r.variant_key == variant_key,
            r.entity_id == entity_id,
    {
        ExposureEvent {
            event_id,
            schema_version: EXPOSURE_SCHEMA_VERSION,
            ts_ms,
            company_id,
            experiment_id,
            variant_key,
            entity_id,
        }
    }
}

} // verus!
