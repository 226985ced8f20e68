use vstd::prelude::*;
use crate::errors::{check_result, validation_error, CustomError};
use crate::models::auth::{UserRole, UserRow};
use crate::text::{
    byte_len_exceeds, contains_char, count_char, count_occurrences, find_char, trim, trimmed,
    utf8_len,
};
use crate::validation::Validate;

verus! {

pub const MAX_EMAIL_LENGTH: usize = 256;

pub struct InviteUserRequest {
    pub email: String,
}

/// Index of the first occurrence of `c` in `s`, or -1.
pub open spec fn index_of(s: Seq<char>, c: char) -> int
    decreases s.len(),
{
    if s.len() == 0 {
        -1
    } else if s[0] == c {
        0
    } else {
        let r = index_of(s.drop_first(), c);
        if r < 0 {
            -1
        } else {
            r + 1
        }
    }
}

proof fn lemma_index_of(s: Seq<char>, c: char, i: int)
    requires
        0 <= i < s.len(),
        s[i] == c,
        forall|j: int| 0 <= j < i ==> s[j] != c,
    ensures
        index_of(s, c) == i,
    decreases i,
{
    if i > 0 {
        let t = s.drop_first();
        assert forall|j: int| 0 <= j < i - 1 implies t[j] != c by {
            assert(t[j] == s[j + 1]);
        }
        lemma_index_of(t, c, i - 1);
    }
}

/// Rules for an invited email address, read after trimming: not empty, not
/// longer than 256 bytes, exactly one `@`, something before it, and a
/// dotted domain after it.
pub open spec fn invite_email_error(email: Seq<char>) -> Option<Seq<char>> {
    let t = trim(email);
    if t.len() == 0 {
        Some("email should not be empty"@)
    } else if utf8_len(t) > MAX_EMAIL_LENGTH {
        Some("email length should be less than 256 bytes"@)
    } else if count_char(t, '@') != 1 {
        Some("email must contain exactly one '@'"@)
    } else {
        let k = index_of(t, '@');
        let local = t.take(k);
        let domain = t.skip(k + 1);
        if local.len() == 0 || domain.len() == 0 || !domain.contains('.') {
            Some("email is not valid"@)
        } else {
            None
        }
    }
}

impl Validate for InviteUserRequest {
    fn validate(&self) -> (r: Result<(), CustomError>)
        ensures
            check_result(r, invite_email_error(self.email@)),
    {
        let t = trimmed(self.email.as_str());
        let t = t.as_str();
        let n = t.unicode_len();
        if n == 0 {
            return Err(validation_error("email should not be empty"));
        }
        if byte_len_exceeds(t, MAX_EMAIL_LENGTH) {
            return Err(validation_error("email length should be less than 256 bytes"));
        }
        if count_occurrences(t, '@') != 1 {
            return Err(validation_error("email must contain exactly one '@'"));
        }
        match find_char(t, '@') {
            Some(k) => {
                proof {
                    lemma_index_of(t@, '@', k as int);
                }
                let domain = t.substring_char(k + 1, n);
                assert(domain@ =~= t@.skip(k + 1));
                if k == 0 || k + 1 == n || !contains_char(domain, '.') {
                    return Err(validation_error("email is not valid"));
                }
                Ok(())
            },
            None => {
                // A string with one '@' has a first '@'.
                proof {
                    assert(count_char(t@, '@') == 1);
                    lemma_count_positive_contains(t@, '@');
                }
                Err(validation_error("email is not valid"))
            },
        }
    }
}

proof fn lemma_count_positive_contains(s: Seq<char>, c: char)
    requires
        count_char(s, c) > 0,
    ensures
        s.contains(c),
    decreases s.len(),
{
    if s.last() == c {
        assert(s[s.len() - 1] == c);
    } else {
        lemma_count_positive_contains(s.drop_last(), c);
        let k = choose|k: int| 0 <= k < s.drop_last().len() && s.drop_last()[k] == c;
        assert(s[k] == c);
    }
}

#[derive(Clone, Copy, PartialEq, Eq, Debug, Structural)]
pub enum UserStatus {
    Pending,
    Active,
}

pub struct UserListItem {
    pub user_id: String,
    pub email: String,
    pub name: Option<String>,
    pub picture_url: Option<String>,
    pub status: UserStatus,
    pub role: UserRole,
    pub created_at: i64,
}

/// A user is active once it has signed in with Google, pending before.
pub open spec fn user_status_of(row: UserRow) -> UserStatus {
    if row.google_sub is Some {
        UserStatus::Active
    } else {
        UserStatus::Pending
    }
}

impl From<UserRow> for UserListItem {
    fn from(row: UserRow) -> (r: Self) {
        let status = if row.google_sub.is_some() {
            UserStatus::Active
        } else {
            UserStatus::Pending
        };
        UserListItem {
            user_id: row.user_id,
            email: row.email,
            name: row.name,
            picture_url: row.picture_url,
            status,
            role: row.role,
            created_at: row.created_at,
        }
    }
}

impl vstd::std_specs::convert::FromSpecImpl<UserRow> for UserListItem {
    open spec fn obeys_from_spec() -> bool {
        true
    }

    open spec fn from_spec(row: UserRow) -> Self {
        UserListItem {
            user_id: row.user_id,
            email: row.email,
            name: row.name,
            picture_url: row.picture_url,
            status: user_status_of(row),
            role: row.role,
            created_at: row.created_at,
        }
    }
}

pub struct UserListResponse {
    pub items: Vec<UserListItem>,
}

} // verus!
