//! Query parameters.
pub use crate::models::experiment::request::GetExperimentsQueryParams;
