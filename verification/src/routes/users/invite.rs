use vstd::prelude::*;
use crate::errors::CustomError;
use crate::models::auth::AuthenticatedUser;
use crate::text::{hex_digit_upper, hex_upper, hex_upper_string, strip_trailing, trim_end_char};

verus! {

/// Whether password sign-in is enabled in this deployment.
pub struct PasswordAuthEnabled(pub bool);

/// Characters a URL query value may hold unescaped.
pub open spec fn is_unreserved(c: char) -> bool {
    ('A' <= c && c <= 'Z') || ('a' <= c && c <= 'z') || ('0' <= c && c <= '9') || c == '-' || c
        == '_' || c == '.' || c == '~'
}

/// How one character is written in a URL: itself when unreserved, else `%`
/// and its code point in upper-case hex, at least two digits.
pub open spec fn url_encode_char(c: char) -> Seq<char> {
    if is_unreserved(c) {
        seq![c]
    } else {
        let h = hex_upper(c as u32 as nat);
        seq!['%'] + if h.len() < 2 {
            seq!['0'] + h
        } else {
            h
        }
    }
}

/// A whole string written for a URL.
pub open spec fn url_encode(s: Seq<char>) -> Seq<char>
    decreases s.len(),
{
    if s.len() == 0 {
        seq![]
    } else {
        url_encode(s.drop_last()) + url_encode_char(s.last())
    }
}

/// The link an invited user opens: the base URL without trailing slashes,
/// `/accept-invite?token=` and the encoded token; none without a base URL.
pub open spec fn invite_url(base: Seq<char>, token: Seq<char>) -> Option<Seq<char>> {
    let trimmed = strip_trailing(base, '/');
    if trimmed.len() == 0 {
        None
    } else {
        Some(trimmed + "/accept-invite?token="@ + url_encode(token))
    }
}

proof fn lemma_hex_len(n: nat)
    ensures
        hex_upper(n).len() >= 1,
        n < 16 ==> hex_upper(n).len() == 1,
        n >= 16 ==> hex_upper(n).len() >= 2,
    decreases n,
{
    if n >= 16 {
        lemma_hex_len(n / 16);
    }
}

/// The value of a hexadecimal digit (either case); 0 for other characters.
pub open spec fn hex_value(c: char) -> int {
    if '0' <= c && c <= '9' {
        c as int - '0' as int
    } else if 'A' <= c && c <= 'F' {
        c as int - 'A' as int + 10
    } else if 'a' <= c && c <= 'f' {
        c as int - 'a' as int + 10
    } else {
        0
    }
}

/// Percent-decoding: each `%` followed by two hex digits stands for the
/// character with that code; every other character stands for itself.
pub open spec fn url_decode(t: Seq<char>) -> Seq<char>
    decreases t.len(),
{
    if t.len() == 0 {
        seq![]
    } else if t[0] == '%' && t.len() >= 3 {
        seq![(hex_value(t[1]) * 16 + hex_value(t[2])) as char] + url_decode(t.skip(3))
    } else {
        seq![t[0]] + url_decode(t.skip(1))
    }
}

/// Every character is ASCII.
pub open spec fn is_ascii_seq(s: Seq<char>) -> bool {
    forall|i: int| 0 <= i < s.len() ==> (#[trigger] s[i]) as u32 <= 0x7F
}

proof fn lemma_url_encode_append(a: Seq<char>, b: Seq<char>)
    ensures
        url_encode(a + b) == url_encode(a) + url_encode(b),
    decreases b.len(),
{
    if b.len() == 0 {
        assert(a + b =~= a);
        assert(url_encode(a) + url_encode(b) =~= url_encode(a));
    } else {
        lemma_url_encode_append(a, b.drop_last());
        assert((a + b).drop_last() =~= a + b.drop_last());
        assert((a + b).last() == b.last());
    }
}

proof fn lemma_hex_digit_value(d: nat)
    requires
        d < 16,
    ensures
        hex_value(hex_digit_upper(d)) == d,
        hex_digit_upper(d) != '%',
{
}

/// An ASCII character that is not unreserved is written as `%` and two hex
/// digits of its code.
proof fn lemma_escape_ascii(c: char)
    requires
        c as u32 <= 0x7F,
        !is_unreserved(c),
    ensures
        url_encode_char(c).len() == 3,
        url_encode_char(c)[0] == '%',
        hex_value(url_encode_char(c)[1]) * 16 + hex_value(url_encode_char(c)[2]) == c as int,
{
    let n = c as u32 as nat;
    let e = url_encode_char(c);
    if n < 16 {
        lemma_hex_digit_value(n);
        assert(hex_upper(n) == seq![hex_digit_upper(n)]);
        assert(e =~= seq!['%', '0', hex_digit_upper(n)]);
    } else {
        lemma_hex_digit_value(n / 16);
        lemma_hex_digit_value(n % 16);
        assert(hex_upper(n / 16) == seq![hex_digit_upper(n / 16)]);
        assert(hex_upper(n) =~= seq![hex_digit_upper(n / 16), hex_digit_upper(n % 16)]);
        assert(e =~= seq!['%', hex_digit_upper(n / 16), hex_digit_upper(n % 16)]);
    }
}

/// Percent-decoding an encoded ASCII string gives it back.
pub proof fn law_url_encode_round_trip(s: Seq<char>)
    requires
        is_ascii_seq(s),
    ensures
        url_decode(url_encode(s)) == s,
    decreases s.len(),
{
    if s.len() > 0 {
        let c = s[0];
        let rest = s.skip(1);
        assert(is_ascii_seq(rest)) by {
            assert forall|i: int| 0 <= i < rest.len() implies (#[trigger] rest[i]) as u32 <= 0x7F by {
                assert(rest[i] == s[i + 1]);
            }
        }
        law_url_encode_round_trip(rest);
        assert(s =~= seq![c] + rest);
        lemma_url_encode_append(seq![c], rest);
        assert(seq![c].drop_last() =~= Seq::<char>::empty());
        assert(url_encode(seq![c].drop_last()) =~= Seq::<char>::empty());
        assert(seq![c].last() == c);
        assert(url_encode(seq![c]) =~= url_encode_char(c));
        let e = url_encode_char(c);
        let t = e + url_encode(rest);
        assert(url_encode(s) == t);
        if is_unreserved(c) {
            assert(t.skip(1) =~= url_encode(rest));
        } else {
            lemma_escape_ascii(c);
            assert(t.skip(3) =~= url_encode(rest));
        }
    }
}

/// Strings of unreserved characters, such as URL-safe base64 tokens, are
/// written unchanged.
pub proof fn law_unreserved_unchanged(s: Seq<char>)
    requires
        forall|i: int| 0 <= i < s.len() ==> is_unreserved(#[trigger] s[i]),
    ensures
        url_encode(s) == s,
    decreases s.len(),
{
    if s.len() > 0 {
        let p = s.drop_last();
        assert forall|i: int| 0 <= i < p.len() implies is_unreserved(#[trigger] p[i]) by {
            assert(p[i] == s[i]);
        }
        law_unreserved_unchanged(p);
        assert(s =~= p + seq![s.last()]);
    }
}

/// Percent-encodes every character outside `A-Z a-z 0-9 - _ . ~`.
pub fn urlencoding(input: &str) -> (r: String)
    ensures
        r@ == url_encode(input@),
{
    let n = input.unicode_len();
    let mut out = String::new();
    let mut i: usize = 0;
    while i < n
        invariant
            n == input@.len(),
            i <= n,
            out@ == url_encode(input@.take(i as int)),
        decreases n - i,
    {
        let c = input.get_char(i);
        proof {
            assert(input@.take(i + 1).drop_last() =~= input@.take(i as int));
            assert(input@.take(i + 1).last() == c);
        }
        if ('A' <= c && c <= 'Z') || ('a' <= c && c <= 'z') || ('0' <= c && c <= '9') || c == '-'
            || c == '_' || c == '.' || c == '~' {
            let one = input.substring_char(i, i + 1);
            assert(one@ =~= seq![c]);
            out.append(one);
        } else {
            let v = c as u32;
            let h = hex_upper_string(v);
            proof {
                lemma_hex_len(v as nat);
            }
            out.append("%");
            if v < 16 {
                out.append("0");
            }
            out.append(h.as_str());
            proof {
                reveal_strlit("%");
                reveal_strlit("0");
            }
        }
        i = i + 1;
    }
    assert(input@.take(n as int) =~= input@);
    out
}

/// The accept-invite link for a token, when a base URL is configured.
pub fn build_invite_url(base: &str, token: &str) -> (r: Option<String>)
    ensures
        match invite_url(base@, token@) {
            Some(u) => r matches Some(s) && s@ == u,
            None => r is None,
        },
{
    let trimmed = trim_end_char(base, '/');
    if trimmed.as_str().unicode_len() == 0 {
        return None;
    }
    let mut url = trimmed;
    url.append("/accept-invite?token=");
    let encoded = urlencoding(token);
    url.append(encoded.as_str());
    Some(url)
}

/// Only admins may invite members.
pub fn require_admin(actor: &AuthenticatedUser) -> (r: Result<(), CustomError>)
    ensures
        actor.role.is_admin_spec() ==> r is Ok,
        !actor.role.is_admin_spec() ==> (r matches Err(CustomError::ForbiddenError(m)) && m@
            == "Only admins can invite members"@),
{
    if !actor.role.is_admin() {
        return Err(CustomError::ForbiddenError(String::from_str("Only admins can invite members")));
    }
    Ok(())
}

/// Invitations carry a password token, valid for the configured number of
/// days, only when password sign-in is enabled.
pub fn invite_token_ttl(password_enabled: &PasswordAuthEnabled, ttl_days: u32) -> (r: Option<u32>)
    ensures
        r == if password_enabled.0 {
            Some(ttl_days)
        } else {
            None::<u32>
        },
{
    if password_enabled.0 {
        Some(ttl_days)
    } else {
        None
    }
}

} // verus!
