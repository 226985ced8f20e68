use vstd::prelude::*;
use crate::errors::{validation_error, CustomError};
use crate::models::auth::{AcceptInviteRequest, PasswordLoginRequest};
use crate::models::response::MessageResponse;
use crate::text::{trim, trimmed};

verus! {

/// An invitation can only be accepted with a token.
pub fn check_accept_invite(request: &AcceptInviteRequest) -> (r: Result<(), CustomError>)
    ensures
        trim(request.token@).len() == 0 ==> (r matches Err(CustomError::ValidationError(m)) && m@
            == "token is required"@),
        trim(request.token@).len() > 0 ==> r is Ok,
{
    if trimmed(request.token.as_str()).as_str().unicode_len() == 0 {
        return Err(validation_error("token is required"));
    }
    Ok(())
}

/// A password login without an email or a password is refused as bad
/// credentials, without a lookup.
pub fn check_password_login(request: &PasswordLoginRequest) -> (r: Result<(), CustomError>)
    ensures
        (trim(request.email@).len() == 0 || request.password@.len() == 0) ==> (r matches Err(
            CustomError::UnauthorizedError(m),
        ) && m@ == "invalid email or password"@),
        !(trim(request.email@).len() == 0 || request.password@.len() == 0) ==> r is Ok,
{
    if trimmed(request.email.as_str()).as_str().unicode_len() == 0
        || request.password.as_str().unicode_len() == 0 {
        return Err(CustomError::UnauthorizedError(String::from_str("invalid email or password")));
    }
    Ok(())
}

/// Checks a token against the configured one.
pub fn validate_token(expected: &String, token: String) -> (r: Result<
    MessageResponse,
    CustomError,
>)
    ensures
        token@ != expected@ ==> (r matches Err(CustomError::ForbiddenError(m)) && m@
            == "Invalid token"@),
        token@ == expected@ ==> (r matches Ok(resp) && resp.message@ == "Token is valid"@),
{
    if token != *expected {
        return Err(CustomError::ForbiddenError(String::from_str("Invalid token")));
    }
    Ok(MessageResponse { message: String::from_str("Token is valid") })
}

} // verus!
