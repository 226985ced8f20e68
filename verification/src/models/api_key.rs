use vstd::prelude::*;
use crate::errors::{check_result, validation_error, CustomError};
use crate::text::{byte_len_exceeds, differs_from_trimmed, trim, utf8_len};
use crate::validation::Validate;

verus! {

/// The API key a request authenticated with.
#[derive(Clone, Debug)]
pub struct AuthenticatedApiKey {
    pub api_key_id: String,
    pub company_id: String,
}

/// What authenticating an API key reads from storage.
pub struct ApiKeyAuthRow {
    pub api_key_id: String,
    pub company_id: String,
}

pub const MAX_API_KEY_NAME_LENGTH: usize = 128;

pub struct CreateApiKeyRequest {
    pub name: String,
}

/// Rules for the name of a new API key.
pub open spec fn api_key_name_error(name: Seq<char>) -> Option<Seq<char>> {
    if name.len() == 0 {
        Some("API key name should not be empty"@)
    } else if trim(name) != name {
        Some("API key name must not have leading or trailing whitespace"@)
    } else if utf8_len(name) > MAX_API_KEY_NAME_LENGTH {
        Some("API key name length should be less than 128 bytes"@)
    } else {
        None
    }
}

impl Validate for CreateApiKeyRequest {
    fn validate(&self) -> (r: Result<(), CustomError>)
        ensures
            check_result(r, api_key_name_error(self.name@)),
    {
        let name = self.name.as_str();
        if name.unicode_len() == 0 {
            return Err(validation_error("API key name should not be empty"));
        }
        if differs_from_trimmed(name) {
            return Err(
                validation_error("API key name must not have leading or trailing whitespace"),
            );
        }
        if byte_len_exceeds(name, MAX_API_KEY_NAME_LENGTH) {
            return Err(validation_error("API key name length should be less than 128 bytes"));
        }
        Ok(())
    }
}

/// The answer to creating an API key; `key` is the plaintext, shown once.
pub struct CreateApiKeyResponse {
    pub api_key_id: String,
    pub name: String,
    pub key: String,
    pub key_prefix: String,
    pub created_at: i64,
}

pub struct ApiKeyListRow {
    pub api_key_id: String,
    pub name: String,
    pub key_prefix: String,
    pub created_at: i64,
}

pub struct ApiKeyListItem {
    pub api_key_id: String,
    pub name: String,
    pub key_prefix: String,
    pub created_at: i64,
}

impl From<ApiKeyListRow> for ApiKeyListItem {
    fn from(row: ApiKeyListRow) -> (r: Self) {
        ApiKeyListItem {
            api_key_id: row.api_key_id,
            name: row.name,
            key_prefix: row.key_prefix,
            created_at: row.created_at,
        }
    }
}

impl vstd::std_specs::convert::FromSpecImpl<ApiKeyListRow> for ApiKeyListItem {
    open spec fn obeys_from_spec() -> bool {
        true
    }

    open spec fn from_spec(row: ApiKeyListRow) -> Self {
        ApiKeyListItem {
            api_key_id: row.api_key_id,
            name: row.name,
            key_prefix: row.key_prefix,
            created_at: row.created_at,
        }
    }
}

pub struct ApiKeyListResponse {
    pub items: Vec<ApiKeyListItem>,
}

} // verus!
