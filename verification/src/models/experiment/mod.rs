pub mod db;
pub mod domain;
pub mod request;
pub mod response;
pub mod status;

pub use db::{CachedExperiment, ExperimentCacheKey, ExperimentListRow, ExperimentRow};
pub use domain::{
    default_config, Constraint, ConstraintOperator, Distribution, Segment, Variant,
};
pub use request::{CreateExperimentRequest, GetExperimentsQueryParams, UpdateExperimentRequest};
pub use response::{
    CreateExperimentResponse, ExperimentListItem, ExperimentListResponse, ExperimentResponse,
};
pub use status::ExperimentStatus;
