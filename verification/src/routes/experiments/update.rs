use vstd::prelude::*;
use crate::errors::{validation_error, CustomError};
use crate::text::{parse_i64, parse_i64_spec, strip_both, trim, trim_char, trimmed};

verus! {

/// The version an `If-Match` header asks for: the header text trimmed of
/// whitespace, then of double quotes, read as an integer.
pub open spec fn if_match_version(raw: Seq<char>) -> Option<i64> {
    parse_i64_spec(strip_both(trim(raw), '"'))
}

/// Reads the optional `If-Match` header (given as text) into the expected
/// `updatedAt` of the experiment.
pub fn parse_if_match(header: Option<&str>) -> (r: Result<Option<i64>, CustomError>)
    ensures
        match header {
            None => r == Ok::<Option<i64>, CustomError>(None),
            Some(raw) => match if_match_version(raw@) {
                Some(v) => r == Ok::<Option<i64>, CustomError>(Some(v)),
                None => r matches Err(CustomError::ValidationError(m)) && m@
                    == "If-Match must be the experiment's updatedAt timestamp"@,
            },
        },
{
    let raw = match header {
        Some(h) => h,
        None => return Ok(None),
    };
    let t = trimmed(raw);
    let inner = trim_char(t.as_str(), '"');
    match parse_i64(inner.as_str()) {
        Some(v) => Ok(Some(v)),
        None => Err(validation_error("If-Match must be the experiment's updatedAt timestamp")),
    }
}

} // verus!
