use vstd::prelude::*;
use crate::errors::CustomError;
use super::db::{ExperimentListRow, ExperimentRow};
use super::domain::{Segment, Variant};
use super::status::ExperimentStatus;

verus! {

pub struct CreateExperimentResponse {
    pub experiment_id: String,
}

/// An experiment with its variants and segments read from their stored
/// JSON.
pub struct ExperimentResponse {
    pub experiment_id: String,
    pub key: String,
    pub description: Option<String>,
    pub status: ExperimentStatus,
    pub primary_metric: String,
    pub variants: Vec<Variant>,
    pub segments: Vec<Segment>,
    pub started_at: Option<i64>,
    pub stopped_at: Option<i64>,
    pub created_at: i64,
    pub updated_at: i64,
}

/// An internal error whose message is `prefix` followed by `detail`.
pub fn internal_error_with(prefix: &str, detail: &str) -> (r: CustomError)
    ensures
        r matches CustomError::InternalError(m) && m@ == prefix@ + detail@,
{
    let mut m = String::from_str(prefix);
    m.append(detail);
    CustomError::InternalError(m)
}

/// The response for a stored row with its variants and segments read.
pub open spec fn response_of(
    experiment: ExperimentRow,
    variants: Vec<Variant>,
    segments: Vec<Segment>,
) -> ExperimentResponse {
    ExperimentResponse {
        experiment_id: experiment.experiment_id,
        key: experiment.key,
        description: experiment.description,
        status: experiment.status,
        primary_metric: experiment.primary_metric,
        variants,
        segments,
        started_at: experiment.started_at,
        stopped_at: experiment.stopped_at,
        created_at: experiment.created_at,
        updated_at: experiment.updated_at,
    }
}

impl ExperimentResponse {
    /// Builds the response from a stored row and the outcome of reading its
    /// variants and segments JSON (a parse error's text on failure). A
    /// variants failure is reported first; either failure is an internal
    /// error, since stored JSON was valid when written.
    pub fn from_row(
        experiment: ExperimentRow,
        variants: Result<Vec<Variant>, String>,
        segments: Result<Vec<Segment>, String>,
    ) -> (r: Result<Self, CustomError>)
        ensures
            match variants {
                Err(e) => r matches Err(CustomError::InternalError(m)) && m@
                    == "Failed to parse stored variants: "@ + e@,
                Ok(vs) => match segments {
                    Err(e) => r matches Err(CustomError::InternalError(m)) && m@
                        == "Failed to parse stored segments: "@ + e@,
                    Ok(ss) => r == Ok::<Self, CustomError>(response_of(experiment, vs, ss)),
                },
            },
    {
        let variants = match variants {
            Ok(v) => v,
            Err(e) => {
                return Err(internal_error_with("Failed to parse stored variants: ", e.as_str()));
            },
        };
        let segments = match segments {
            Ok(s) => s,
            Err(e) => {
                return Err(internal_error_with("Failed to parse stored segments: ", e.as_str()));
            },
        };
        Ok(
            ExperimentResponse {
                experiment_id: experiment.experiment_id,
                key: experiment.key,
                description: experiment.description,
                status: experiment.status,
                primary_metric: experiment.primary_metric,
                variants,
                segments,
                started_at: experiment.started_at,
                stopped_at: experiment.stopped_at,
                created_at: experiment.created_at,
                updated_at: experiment.updated_at,
            },
        )
    }
}

pub struct ExperimentListItem {
    pub experiment_id: String,
    pub key: String,
    pub description: Option<String>,
    pub status: ExperimentStatus,
    pub primary_metric: String,
    pub started_at: Option<i64>,
    pub stopped_at: Option<i64>,
    pub created_at: i64,
    pub updated_at: i64,
}

impl From<ExperimentListRow> for ExperimentListItem {
    fn from(row: ExperimentListRow) -> (r: Self) {
        ExperimentListItem {
            experiment_id: row.experiment_id,
            key: row.key,
            description: row.description,
            status: row.status,
            primary_metric: row.primary_metric,
            started_at: row.started_at,
            stopped_at: row.stopped_at,
            created_at: row.created_at,
            updated_at: row.updated_at,
        }
    }
}

impl vstd::std_specs::convert::FromSpecImpl<ExperimentListRow> for ExperimentListItem {
    open spec fn obeys_from_spec() -> bool {
        true
    }

    open spec fn from_spec(row: ExperimentListRow) -> Self {
        ExperimentListItem {
            experiment_id: row.experiment_id,
            key: row.key,
            description: row.description,
            status: row.status,
            primary_metric: row.primary_metric,
            started_at: row.started_at,
            stopped_at: row.stopped_at,
            created_at: row.created_at,
            updated_at: row.updated_at,
        }
    }
}

pub struct ExperimentListResponse {
    pub items: Vec<ExperimentListItem>,
}

} // verus!
