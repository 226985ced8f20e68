pub mod invite;

pub use invite::{build_invite_url, invite_token_ttl, require_admin, urlencoding, PasswordAuthEnabled};
