//! Input validation shared by request types.
use vstd::prelude::*;
use crate::errors::CustomError;

verus! {

/// A request body that checks its own shape before a handler uses it.
pub trait Validate {
    fn validate(&self) -> Result<(), CustomError>;
}

} // verus!
