use vstd::prelude::*;

verus! {

/// Role of a user inside its company.
#[derive(Clone, Copy, Debug, PartialEq, Eq, Structural)]
pub enum UserRole {
    Admin,
    Member,
}

impl UserRole {
    pub open spec fn is_admin_spec(self) -> bool {
        self == UserRole::Admin
    }

    pub fn is_admin(self) -> (r: bool)
        ensures
            r == self.is_admin_spec(),
    {
        match self {
            UserRole::Admin => true,
            UserRole::Member => false,
        }
    }
}

/// The signed-in user a request acts for.
#[derive(Clone, Debug)]
pub struct AuthenticatedUser {
    pub user_id: String,
    pub company_id: String,
    pub email: String,
    pub role: UserRole,
}

/// The secret that signs session tokens.
#[derive(Clone)]
pub struct JwtSecret(pub String);

pub struct CompanyRow {
    pub company_id: String,
    pub name: String,
    pub created_at: i64,
    pub updated_at: i64,
}

/// A stored user. A user with a `google_sub` has signed in with Google; one
/// with an `invite_token_hash` has a pending password invitation.
pub struct UserRow {
    pub user_id: String,
    pub company_id: String,
    pub email: String,
    pub name: Option<String>,
    pub picture_url: Option<String>,
    pub google_sub: Option<String>,
    pub password_hash: Option<String>,
    pub invite_token_hash: Option<String>,
    pub invite_token_expires_at: Option<i64>,
    pub role: UserRole,
    pub created_at: i64,
    pub updated_at: i64,
}

pub struct GoogleLoginRequest {
    pub token: String,
}

pub struct PasswordLoginRequest {
    pub email: String,
    pub password: String,
}

pub struct AcceptInviteRequest {
    pub token: String,
    pub password: String,
}

pub struct LoginResponse {
    pub token: String,
    pub user: UserResponse,
    pub company: CompanyResponse,
}

pub struct UserResponse {
    pub user_id: String,
    pub email: String,
    pub name: Option<String>,
    pub picture_url: Option<String>,
    pub role: UserRole,
}

impl From<UserRow> for UserResponse {
    fn from(row: UserRow) -> (r: Self) {
        UserResponse {
            user_id: row.user_id,
            email: row.email,
            name: row.name,
            picture_url: row.picture_url,
            role: row.role,
        }
    }
}

impl vstd::std_specs::convert::FromSpecImpl<UserRow> for UserResponse {
    open spec fn obeys_from_spec() -> bool {
        true
    }

    open spec fn from_spec(row: UserRow) -> Self {
        UserResponse {
            user_id: row.user_id,
            email: row.email,
            name: row.name,
            picture_url: row.picture_url,
            role: row.role,
        }
    }
}

pub struct CompanyResponse {
    pub company_id: String,
    pub name: String,
}

impl From<CompanyRow> for CompanyResponse {
    fn from(row: CompanyRow) -> (r: Self) {
        CompanyResponse { company_id: row.company_id, name: row.name }
    }
}

impl vstd::std_specs::convert::FromSpecImpl<CompanyRow> for CompanyResponse {
    open spec fn obeys_from_spec() -> bool {
        true
    }

    open spec fn from_spec(row: CompanyRow) -> Self {
        CompanyResponse { company_id: row.company_id, name: row.name }
    }
}

} // verus!
