//! Response bodies of the first API version, which sends statuses as text.
use vstd::prelude::*;
use crate::errors::CustomError;
use crate::json::JsonValue;
use crate::models::experiment::db::ExperimentRow;
use crate::models::experiment::domain::{Segment, Variant};
use crate::models::experiment::response::internal_error_with;

verus! {

pub struct MessageResponse {
    pub message: String,
}

pub struct CreateExperimentResponse {
    pub experiment_id: String,
    pub message: String,
}

pub struct ExperimentResponse {
    pub experiment_id: String,
    pub key: String,
    pub description: Option<String>,
    pub status: String,
    pub primary_metric: String,
    pub variants: Vec<Variant>,
    pub segments: Vec<Segment>,
    pub started_at: Option<i64>,
    pub stopped_at: Option<i64>,
    pub created_at: i64,
    pub updated_at: i64,
}

impl ExperimentResponse {
    /// Builds the response from a stored row and the outcome of reading its
    /// variants and segments JSON; the status is sent by name.
    pub fn from_row(
        experiment: ExperimentRow,
        variants: Result<Vec<Variant>, String>,
        segments: Result<Vec<Segment>, String>,
    ) -> (r: Result<Self, CustomError>)
        ensures
            match variants {
                Err(e) => r matches Err(CustomError::InternalError(m)) && m@
                    == "Failed to parse stored variants: "@ + e@,
                Ok(vs) => match segments {
                    Err(e) => r matches Err(CustomError::InternalError(m)) && m@
                        == "Failed to parse stored segments: "@ + e@,
                    Ok(ss) => r matches Ok(resp) && resp.status@ == experiment.status.name()
                        && resp.experiment_id == experiment.experiment_id && resp.key
                        == experiment.key && resp.description == experiment.description
                        && resp.primary_metric == experiment.primary_metric && resp.variants == vs
                        && resp.segments == ss && resp.started_at == experiment.started_at
                        && resp.stopped_at == experiment.stopped_at && resp.created_at
                        == experiment.created_at && resp.updated_at == experiment.updated_at,
                },
            },
    {
        let variants = match variants {
            Ok(v) => v,
            Err(e) => {
                return Err(internal_error_with("Failed to parse stored variants: ", e.as_str()));
            },
        };
        let segments = match segments {
            Ok(s) => s,
            Err(e) => {
                return Err(internal_error_with("Failed to parse stored segments: ", e.as_str()));
            },
        };
        Ok(
            ExperimentResponse {
                experiment_id: experiment.experiment_id,
                key: experiment.key,
                description: experiment.description,
                status: String::from_str(experiment.status.as_str()),
                primary_metric: experiment.primary_metric,
                variants,
                segments,
                started_at: experiment.started_at,
                stopped_at: experiment.stopped_at,
                created_at: experiment.created_at,
                updated_at: experiment.updated_at,
            },
        )
    }
}

pub struct ExperimentListItem {
    pub experiment_id: String,
    pub key: String,
    pub description: Option<String>,
    pub status: String,
    pub primary_metric: String,
    pub started_at: Option<i64>,
    pub stopped_at: Option<i64>,
    pub created_at: i64,
    pub updated_at: i64,
}

impl ExperimentListItem {
    /// The list entry for a stored row, with the status sent by name.
    pub fn from_row(row: ExperimentRow) -> (r: Self)
        ensures
            r.status@ == row.status.name(),
            r.experiment_id == row.experiment_id,
            r.key == row.key,
            r.description == row.description,
            r.primary_metric == row.primary_metric,
            r.started_at == row.started_at,
            r.stopped_at == row.stopped_at,
            r.created_at == row.created_at,
            r.updated_at == row.updated_at,
    {
        ExperimentListItem {
            experiment_id: row.experiment_id,
            key: row.key,
            description: row.description,
            status: String::from_str(row.status.as_str()),
            primary_metric: row.primary_metric,
            started_at: row.started_at,
            stopped_at: row.stopped_at,
            created_at: row.created_at,
            updated_at: row.updated_at,
        }
    }
}

pub struct EvaluateResponse {
    pub experiment_key: String,
    pub variant_key: Option<String>,
    pub attachment: Option<JsonValue>,
}

pub struct LoginResponse {
    pub token: String,
    pub user: UserResponse,
    pub company: CompanyResponse,
}

pub struct UserResponse {
    pub user_id: String,
    pub email: String,
    pub name: String,
    pub picture_url: String,
}

pub struct CompanyResponse {
    pub company_id: String,
    pub name: String,
}

} // verus!
