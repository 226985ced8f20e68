use vstd::prelude::*;
use crate::errors::{check_result, validation_error, CustomError};
use crate::json::{JsonKind, JsonValue};
use crate::models::request::{MAX_ENTITY_ID_LENGTH, MAX_KEY_LENGTH};
use crate::text::{byte_len_exceeds, utf8_len};
use crate::validation::Validate;

verus! {

/// Asks which variant an entity gets in an experiment. `properties` holds
/// the entity's attributes that segment constraints look at.
pub struct EvaluateRequest {
    pub experiment_key: String,
    pub entity_id: String,
    pub properties: JsonValue,
}

/// Rules for an evaluation request. Properties must be an object, or null
/// for none: constraints look properties up by name.
pub open spec fn evaluate_request_error(r: EvaluateRequest) -> Option<Seq<char>> {
    if r.experiment_key@.len() == 0 {
        Some("Experiment key should not be empty"@)
    } else if utf8_len(r.experiment_key@) > MAX_KEY_LENGTH {
        Some("Experiment key length should be less than 256 bytes"@)
    } else if r.entity_id@.len() == 0 {
        Some("Entity ID should not be empty"@)
    } else if utf8_len(r.entity_id@) > MAX_ENTITY_ID_LENGTH {
        Some("Entity ID length should be less than 256 bytes"@)
    } else if r.properties.kind != JsonKind::Null && r.properties.kind != JsonKind::Object {
        Some("Properties must be a JSON object"@)
    } else {
        None
    }
}

impl Validate for EvaluateRequest {
    fn validate(&self) -> (r: Result<(), CustomError>)
        ensures
            check_result(r, evaluate_request_error(*self)),
    {
        if self.experiment_key.as_str().unicode_len() == 0 {
            return Err(validation_error("Experiment key should not be empty"));
        }
        if byte_len_exceeds(self.experiment_key.as_str(), MAX_KEY_LENGTH) {
            return Err(validation_error("Experiment key length should be less than 256 bytes"));
        }
        if self.entity_id.as_str().unicode_len() == 0 {
            return Err(validation_error("Entity ID should not be empty"));
        }
        if byte_len_exceeds(self.entity_id.as_str(), MAX_ENTITY_ID_LENGTH) {
            return Err(validation_error("Entity ID length should be less than 256 bytes"));
        }
        if self.properties.kind != JsonKind::Null && self.properties.kind != JsonKind::Object {
            return Err(validation_error("Properties must be a JSON object"));
        }
        Ok(())
    }
}

/// The variant an entity got (none when it matched no segment or the
/// experiment is not running) and that variant's config.
pub struct EvaluateResponse {
    pub experiment_key: String,
    pub variant_key: Option<String>,
    pub config: Option<JsonValue>,
}

} // verus!
