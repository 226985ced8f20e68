//! Verified core of an A/B testing service: request validation, the
//! experiment lifecycle, error mapping and the small pure helpers that the
//! HTTP layer relies on.

pub mod analytics;
pub mod config;
pub mod enums;
pub mod errors;
pub mod json;
pub mod models;
pub mod repository;
pub mod routes;
pub mod seed;
pub mod text;
pub mod validation;
