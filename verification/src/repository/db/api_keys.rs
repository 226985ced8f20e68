use vstd::prelude::*;

verus! {

/// An API key to store: only its hash and display prefix are kept.
pub struct NewApiKey<'a> {
    pub company_id: &'a str,
    pub name: &'a str,
    pub key_hash: &'a str,
    pub key_prefix: &'a str,
}

pub enum CreateApiKeyOutcome {
    Created { api_key_id: String, created_at: i64 },
    NameConflict,
}

/// Names are unique per company: an insert that wrote nothing met an
/// existing name.
pub fn create_api_key_outcome(rows_affected: u64, api_key_id: String, now: i64) -> (r:
    CreateApiKeyOutcome)
    ensures
        rows_affected == 0 ==> r is NameConflict,
        rows_affected != 0 ==> r == (CreateApiKeyOutcome::Created { api_key_id, created_at: now }),
{
    if rows_affected == 0 {
        CreateApiKeyOutcome::NameConflict
    } else {
        CreateApiKeyOutcome::Created { api_key_id, created_at: now }
    }
}

} // verus!
