//! The user and company rows that sign-up and invitation write.
use vstd::prelude::*;
use crate::models::auth::{CompanyRow, UserRole, UserRow};

verus! {

pub enum CreatePendingUserOutcome {
    Created(UserRow),
    EmailExists,
}

/// The password invitation stored with a pending user.
pub struct PendingUserInvite<'a> {
    pub invite_token_hash: &'a str,
    pub invite_token_expires_at: i64,
}

/// The owned copy of an optional string slice.
pub fn opt_to_owned(o: Option<&str>) -> (r: Option<String>)
    ensures
        match o {
            Some(s) => r matches Some(t) && t@ == s@,
            None => r is None,
        },
{
    match o {
        Some(s) => Some(s.to_owned()),
        None => None,
    }
}

/// A new company.
pub fn new_company_row(company_id: String, name: &str, now: i64) -> (r: CompanyRow)
    ensures
        r.company_id == company_id,
        r.name@ == name@,
        r.created_at == now,
        r.updated_at == now,
{
    CompanyRow { company_id, name: name.to_owned(), created_at: now, updated_at: now }
}

/// The first user of a new company, signed up with Google: an admin bound
/// to its Google subject, without password or invitation.
pub fn google_admin_row(
    user_id: String,
    company_id: String,
    email: &str,
    name: Option<&str>,
    picture_url: Option<&str>,
    google_sub: &str,
    now: i64,
) -> (r: UserRow)
    ensures
        r.user_id == user_id,
        r.company_id == company_id,
        r.email@ == email@,
        r.name matches Some(n) ==> name matches Some(m) && n@ == m@,
        r.name is None <==> name is None,
        r.picture_url matches Some(p) ==> picture_url matches Some(q) && p@ == q@,
        r.picture_url is None <==> picture_url is None,
        r.google_sub matches Some(g) && g@ == google_sub@,
        r.password_hash is None,
        r.invite_token_hash is None,
        r.invite_token_expires_at is None,
        r.role == UserRole::Admin,
        r.created_at == now,
        r.updated_at == now,
{
    UserRow {
        user_id,
        company_id,
        email: email.to_owned(),
        name: opt_to_owned(name),
        picture_url: opt_to_owned(picture_url),
        google_sub: Some(google_sub.to_owned()),
        password_hash: None,
        invite_token_hash: None,
        invite_token_expires_at: None,
        role: UserRole::Admin,
        created_at: now,
        updated_at: now,
    }
}

/// The bootstrap admin of a new company, signing in with a password.
pub fn password_admin_row(
    user_id: String,
    company_id: String,
    email: &str,
    password_hash: &str,
    now: i64,
) -> (r: UserRow)
    ensures
        r.user_id == user_id,
        r.company_id == company_id,
        r.email@ == email@,
        r.name is None,
        r.picture_url is None,
        r.google_sub is None,
        r.password_hash matches Some(h) && h@ == password_hash@,
        r.invite_token_hash is None,
        r.invite_token_expires_at is None,
        r.role == UserRole::Admin,
        r.created_at == now,
        r.updated_at == now,
{
    UserRow {
        user_id,
        company_id,
        email: email.to_owned(),
        name: None,
        picture_url: None,
        google_sub: None,
        password_hash: Some(password_hash.to_owned()),
        invite_token_hash: None,
        invite_token_expires_at: None,
        role: UserRole::Admin,
        created_at: now,
        updated_at: now,
    }
}

/// An invited member who has not signed in yet, with the invitation's token
/// hash and expiry when there is one.
pub fn pending_user_row(
    user_id: String,
    company_id: &str,
    email: &str,
    invite: &Option<PendingUserInvite>,
    now: i64,
) -> (r: UserRow)
    ensures
        r.user_id == user_id,
        r.company_id@ == company_id@,
        r.email@ == email@,
        r.name is None,
        r.picture_url is None,
        r.google_sub is None,
        r.password_hash is None,
        match invite {
            Some(i) => (r.invite_token_hash matches Some(h) && h@ == i.invite_token_hash@)
                && r.invite_token_expires_at == Some(i.invite_token_expires_at),
            None => r.invite_token_hash is None && r.invite_token_expires_at is None,
        },
        r.role == UserRole::Member,
        r.created_at == now,
        r.updated_at == now,
{
    let (hash, expires) = match invite {
        Some(i) => (Some(i.invite_token_hash.to_owned()), Some(i.invite_token_expires_at)),
        None => (None, None),
    };
    UserRow {
        user_id,
        company_id: company_id.to_owned(),
        email: email.to_owned(),
        name: None,
        picture_url: None,
        google_sub: None,
        password_hash: None,
        invite_token_hash: hash,
        invite_token_expires_at: expires,
        role: UserRole::Member,
        created_at: now,
        updated_at: now,
    }
}

/// Inserting a pending user is skipped when the email is taken.
pub fn pending_user_outcome(inserted: bool, row: UserRow) -> (r: CreatePendingUserOutcome)
    ensures
        inserted ==> r == CreatePendingUserOutcome::Created(row),
        !inserted ==> r is EmailExists,
{
    if inserted {
        CreatePendingUserOutcome::Created(row)
    } else {
        CreatePendingUserOutcome::EmailExists
    }
}

} // verus!
