use vstd::prelude::*;
use crate::errors::{check_result, validation_error, CustomError};
use crate::models::request::{experiment_state_error, key_error, validate_experiment_state, validate_key};
use crate::validation::Validate;
use super::domain::{Segment, Variant};
use super::status::ExperimentStatus;

verus! {

/// The view of an optional owned string.
pub open spec fn opt_string_view(o: Option<String>) -> Option<Seq<char>> {
    match o {
        Some(s) => Some(s@),
        None => None,
    }
}

/// Borrows the text of an optional string.
pub fn opt_as_str(o: &Option<String>) -> (r: Option<&str>)
    ensures
        crate::models::request::opt_view(r) == opt_string_view(*o),
{
    match o {
        Some(s) => Some(s.as_str()),
        None => None,
    }
}

pub struct CreateExperimentRequest {
    pub key: String,
    pub description: Option<String>,
    pub primary_metric: String,
    pub segments: Vec<Segment>,
    pub variants: Vec<Variant>,
}

/// Rules for a new experiment: its key, then its editable state.
pub open spec fn create_experiment_error(r: CreateExperimentRequest) -> Option<Seq<char>> {
    if key_error(r.key@) is Some {
        key_error(r.key@)
    } else {
        experiment_state_error(
            opt_string_view(r.description),
            r.primary_metric@,
            r.variants@,
            r.segments@,
        )
    }
}

impl Validate for CreateExperimentRequest {
    fn validate(&self) -> (r: Result<(), CustomError>)
        ensures
            check_result(r, create_experiment_error(*self)),
    {
        let k = validate_key(self.key.as_str());
        if k.is_err() {
            return k;
        }
        validate_experiment_state(
            opt_as_str(&self.description),
            self.primary_metric.as_str(),
            self.variants.as_slice(),
            self.segments.as_slice(),
        )
    }
}

/// A partial update. `description` is `None` when absent, `Some(None)` when
/// sent as null.
pub struct UpdateExperimentRequest {
    pub description: Option<Option<String>>,
    pub primary_metric: Option<String>,
    pub segments: Option<Vec<Segment>>,
    pub variants: Option<Vec<Variant>>,
}

/// An update must set at least one field.
pub open spec fn update_experiment_error(r: UpdateExperimentRequest) -> Option<Seq<char>> {
    if r.description is None && r.primary_metric is None && r.segments is None && r.variants is None {
        Some("Request body must include at least one field to update"@)
    } else {
        None
    }
}

impl Validate for UpdateExperimentRequest {
    fn validate(&self) -> (r: Result<(), CustomError>)
        ensures
            check_result(r, update_experiment_error(*self)),
    {
        if self.description.is_none() && self.primary_metric.is_none() && self.segments.is_none()
            && self.variants.is_none() {
            return Err(validation_error("Request body must include at least one field to update"));
        }
        Ok(())
    }
}

/// Query parameters of the experiment list.
pub struct GetExperimentsQueryParams {
    pub status: Option<ExperimentStatus>,
}

} // verus!
