//! Service configuration and the decisions read from it.
use vstd::prelude::*;
use crate::text::{strip_prefix, trim, trimmed};

verus! {

/// A configuration value that could not be read.
#[derive(Debug)]
pub struct ConfigError(pub String);

impl ConfigError {
    /// What `Display` writes: `config error: ` and the reason.
    pub fn describe(&self) -> (r: String)
        ensures
            r@ == "config error: "@ + self.0@,
    {
        let mut s = String::from_str("config error: ");
        s.append(self.0.as_str());
        s
    }
}

pub const DEFAULT_APPLICATION_PORT: u16 = 18200;

pub const DEFAULT_ADMIN_COMPANY_NAME: &'static str = "Default";

pub const DEFAULT_INVITE_TOKEN_TTL_DAYS: u32 = 7;

pub const DEFAULT_SQLITE_URL: &'static str = "sqlite://easy-experiments.db";

pub const DEFAULT_DUCKDB_PATH: &'static str = "easy-experiments.duckdb";

pub const DEFAULT_EVENT_QUEUE_CAPACITY: usize = 10_000;

pub const DEFAULT_EVENT_BATCH_CAPACITY: usize = 1_000;

pub const DEFAULT_EVENT_FLUSH_INTERVAL_MS: u64 = 1_000;

pub const DEFAULT_EXPOSURE_DEDUP_CAPACITY: u64 = 1_000_000;

pub const DEFAULT_EXPOSURE_DEDUP_TTL_SECS: u64 = 3_600;

pub const DEFAULT_METRIC_QUEUE_CAPACITY: usize = 10_000;

pub const DEFAULT_METRIC_BATCH_CAPACITY: usize = 1_000;

pub const DEFAULT_METRIC_FLUSH_INTERVAL_MS: u64 = 1_000;

pub const DEFAULT_METRIC_IDEMPOTENCY_CAPACITY: u64 = 200_000;

pub const DEFAULT_METRIC_IDEMPOTENCY_TTL_SECS: u64 = 600;

pub const DEFAULT_ANALYTICS_POOL_SIZE: usize = 4;

pub const DEFAULT_ANALYTICS_CACHE_CAPACITY: u64 = 1_000;

pub const DEFAULT_ANALYTICS_CACHE_TTL_SECS: u64 = 30;

#[derive(Debug)]
pub struct Config {
    pub application_port: u16,
    pub jwt_secret: Option<String>,
    pub google_client_id: Option<String>,
    pub google_jwks_url: String,
    /// Optional bootstrap admin: when set and no user exists at startup, a
    /// company and an admin with this email and password are created.
    pub admin_email: Option<String>,
    pub admin_password: Option<String>,
    pub admin_company_name: String,
    /// How many days an accept-invite token stays valid.
    pub invite_token_ttl_days: u32,
    /// Public base URL of the UI, used to build invite links; empty when the
    /// UI builds them itself.
    pub app_base_url: String,
    pub sqlite_url: String,
    pub duckdb_path: String,
    pub event_queue_capacity: usize,
    pub event_batch_capacity: usize,
    pub event_flush_interval_ms: u64,
    pub exposure_dedup_capacity: u64,
    pub exposure_dedup_ttl_secs: u64,
    pub metric_queue_capacity: usize,
    pub metric_batch_capacity: usize,
    pub metric_flush_interval_ms: u64,
    pub metric_idempotency_capacity: u64,
    pub metric_idempotency_ttl_secs: u64,
    pub analytics_pool_size: usize,
    pub analytics_cache_capacity: u64,
    pub analytics_cache_ttl_secs: u64,
    pub cors_allowed_origins: Option<String>,
    /// Directory of a built UI bundle to serve, when set.
    pub ui_dist_path: Option<String>,
}

/// Which sign-in methods are offered.
#[derive(Debug, Clone, Copy, PartialEq, Eq, Structural)]
pub struct AuthProviders {
    pub google: bool,
    pub password: bool,
}

impl Default for AuthProviders {
    fn default() -> (r: Self)
        ensures
            !r.google && !r.password,
    {
        AuthProviders { google: false, password: false }
    }
}

/// The file path in a SQLite URL: the URL without a leading `sqlite://`.
pub open spec fn sqlite_path_of(url: Seq<char>) -> Seq<char> {
    let prefix = "sqlite://"@;
    if url.len() >= prefix.len() && url.take(prefix.len() as int) == prefix {
        url.skip(prefix.len() as int)
    } else {
        url
    }
}

/// Google sign-in is configured when a client id with some non-whitespace
/// character is set.
pub open spec fn google_configured(client_id: Option<String>) -> bool {
    match client_id {
        Some(id) => trim(id@).len() > 0,
        None => false,
    }
}

impl Config {
    pub fn sqlite_filepath(&self) -> (r: String)
        ensures
            r@ == sqlite_path_of(self.sqlite_url@),
    {
        match strip_prefix(self.sqlite_url.as_str(), "sqlite://") {
            Some(rest) => rest,
            None => self.sqlite_url.clone(),
        }
    }

    /// Google sign-in when a Google client id is configured, email and
    /// password sign-in otherwise; never both.
    pub fn auth_provider_set(&self) -> (r: AuthProviders)
        ensures
            r.google == google_configured(self.google_client_id),
            r.password == !r.google,
    {
        let google_configured = match &self.google_client_id {
            Some(id) => trimmed(id.as_str()).as_str().unicode_len() > 0,
            None => false,
        };
        if google_configured {
            AuthProviders { google: true, password: false }
        } else {
            AuthProviders { google: false, password: true }
        }
    }
}

/// The pieces of `s` between occurrences of `c`, as `str::split` yields
/// them (an empty string yields one empty piece).
pub open spec fn split_pieces(s: Seq<char>, c: char) -> Seq<Seq<char>>
    decreases s.len(),
{
    if s.len() == 0 {
        seq![Seq::<char>::empty()]
    } else {
        let p = split_pieces(s.drop_last(), c);
        if s.last() == c {
            p.push(Seq::<char>::empty())
        } else {
            p.update(p.len() - 1, p.last().push(s.last()))
        }
    }
}

/// The trimmed pieces that are not empty, in order.
pub open spec fn nonempty_trimmed(pieces: Seq<Seq<char>>) -> Seq<Seq<char>>
    decreases pieces.len(),
{
    if pieces.len() == 0 {
        Seq::<Seq<char>>::empty()
    } else {
        let r = nonempty_trimmed(pieces.drop_last());
        if trim(pieces.last()).len() > 0 {
            r.push(trim(pieces.last()))
        } else {
            r
        }
    }
}

/// The allowed CORS origins of a comma-separated list: each entry trimmed,
/// empty entries skipped; none when the setting is absent.
pub open spec fn cors_origins_of(raw: Option<Seq<char>>) -> Seq<Seq<char>> {
    match raw {
        Some(r) => nonempty_trimmed(split_pieces(r, ',')),
        None => Seq::<Seq<char>>::empty(),
    }
}

/// The views of a list of strings.
pub open spec fn string_views(v: Seq<String>) -> Seq<Seq<char>> {
    v.map_values(|x: String| x@)
}

/// Reads the `CORS_ALLOWED_ORIGINS` setting.
pub fn parse_cors_origins(raw: Option<&str>) -> (r: Vec<String>)
    ensures
        string_views(r@) == cors_origins_of(match raw {
            Some(s) => Some(s@),
            None => None,
        }),
{
    let s = match raw {
        Some(s) => s,
        None => {
            let out: Vec<String> = Vec::new();
            assert(string_views(out@) =~= Seq::<Seq<char>>::empty());
            return out;
        },
    };
    let n = s.unicode_len();
    let mut out: Vec<String> = Vec::new();
    let mut start: usize = 0;
    let mut i: usize = 0;
    let ghost mut done: Seq<Seq<char>> = Seq::empty();
    proof {
        assert(s@.take(0) =~= Seq::<char>::empty());
        assert(s@.subrange(0, 0) =~= Seq::<char>::empty());
        assert(split_pieces(Seq::<char>::empty(), ',') =~= done.push(s@.subrange(0, 0)));
        assert(string_views(out@) =~= nonempty_trimmed(done));
    }
    while i < n
        invariant
            n == s@.len(),
            start <= i <= n,
            split_pieces(s@.take(i as int), ',') == done.push(s@.subrange(start as int, i as int)),
            string_views(out@) == nonempty_trimmed(done),
        decreases n - i,
    {
        let ch = s.get_char(i);
        proof {
            assert(s@.take(i + 1).drop_last() =~= s@.take(i as int));
            assert(s@.take(i + 1).last() == ch);
        }
        if ch == ',' {
            let piece = s.substring_char(start, i);
            let t = trimmed(piece);
            let ghost old_out = out@;
            proof {
                assert(done.push(piece@).drop_last() =~= done);
            }
            if t.as_str().unicode_len() > 0 {
                out.push(t);
                proof {
                    assert(string_views(out@) =~= string_views(old_out).push(trim(piece@)));
                }
            }
            proof {
                done = done.push(piece@);
                assert(s@.subrange((i + 1) as int, (i + 1) as int) =~= Seq::<char>::empty());
            }
            start = i + 1;
        } else {
            proof {
                let p = split_pieces(s@.take(i as int), ',');
                assert(p.last() == s@.subrange(start as int, i as int));
                assert(s@.subrange(start as int, i as int).push(ch) =~= s@.subrange(
                    start as int,
                    i + 1,
                ));
                assert(p.update(p.len() - 1, p.last().push(ch)) =~= done.push(
                    s@.subrange(start as int, i + 1),
                ));
            }
        }
        i = i + 1;
    }
    let piece = s.substring_char(start, n);
    let t = trimmed(piece);
    let ghost old_out = out@;
    proof {
        assert(s@.take(n as int) =~= s@);
        assert(done.push(piece@).drop_last() =~= done);
    }
    if t.as_str().unicode_len() > 0 {
        out.push(t);
        proof {
            assert(string_views(out@) =~= string_views(old_out).push(trim(piece@)));
        }
    }
    out
}

// ---------------------------------------------------------------------------
// Numeric settings.
// ---------------------------------------------------------------------------
/// Why text is not an unsigned integer, as `ParseIntError` reports it.
#[derive(Clone, Copy, Debug, PartialEq, Eq, Structural)]
pub enum IntParseFailure {
    Empty,
    InvalidDigit,
    PosOverflow,
}

impl IntParseFailure {
    pub open spec fn spec_message(self) -> Seq<char> {
        match self {
            IntParseFailure::Empty => "cannot parse integer from empty string"@,
            IntParseFailure::InvalidDigit => "invalid digit found in string"@,
            IntParseFailure::PosOverflow => "number too large to fit in target type"@,
        }
    }

    /// What `Display` writes for the failure.
    pub fn message(self) -> (r: &'static str)
        ensures
            r@ == self.spec_message(),
    {
        proof {
            reveal_strlit("cannot parse integer from empty string");
            reveal_strlit("invalid digit found in string");
            reveal_strlit("number too large to fit in target type");
        }
        match self {
            IntParseFailure::Empty => "cannot parse integer from empty string",
            IntParseFailure::InvalidDigit => "invalid digit found in string",
            IntParseFailure::PosOverflow => "number too large to fit in target type",
        }
    }
}

/// Reading the first `k` digits of `body` left to right, as the standard
/// parser does: the first character that is not a digit, or the first
/// digit that takes the value above `max`, ends the scan with its failure.
pub open spec fn scan_digits(body: Seq<char>, max: nat, k: int) -> Result<nat, IntParseFailure>
    decreases k,
{
    if k <= 0 {
        Ok(0)
    } else {
        match scan_digits(body, max, k - 1) {
            Err(e) => Err(e),
            Ok(v) => if !crate::text::is_digit(body[k - 1]) {
                Err(IntParseFailure::InvalidDigit)
            } else if v * 10 + ((body[k - 1] as u32) - ('0' as u32)) > max {
                Err(IntParseFailure::PosOverflow)
            } else {
                Ok(v * 10 + ((body[k - 1] as u32) - ('0' as u32)) as nat)
            },
        }
    }
}

/// What `str::parse` returns for an unsigned integer type whose largest
/// value is `max`: an optional `+`, then at least one decimal digit.
pub open spec fn parse_unsigned_spec(s: Seq<char>, max: nat) -> Result<nat, IntParseFailure> {
    if s.len() == 0 {
        Err(IntParseFailure::Empty)
    } else {
        let body = if s[0] == '+' {
            s.drop_first()
        } else {
            s
        };
        if body.len() == 0 {
            Err(IntParseFailure::InvalidDigit)
        } else {
            scan_digits(body, max, body.len() as int)
        }
    }
}

/// `str::parse` into an unsigned integer type whose largest value is `max`.
pub fn parse_unsigned(s: &str, max: u64) -> (r: Result<u64, IntParseFailure>)
    ensures
        match parse_unsigned_spec(s@, max as nat) {
            Ok(v) => r == Ok::<u64, IntParseFailure>(v as u64),
            Err(e) => r == Err::<u64, IntParseFailure>(e),
        },
{
    let n = s.unicode_len();
    if n == 0 {
        return Err(IntParseFailure::Empty);
    }
    let start: usize = if s.get_char(0) == '+' {
        1
    } else {
        0
    };
    let ghost body = if start == 1 {
        s@.drop_first()
    } else {
        s@
    };
    assert(body =~= s@.skip(start as int));
    if start == n {
        return Err(IntParseFailure::InvalidDigit);
    }
    let mut acc: u64 = 0;
    let mut i: usize = start;
    while i < n
        invariant
            n == s@.len(),
            start <= i <= n,
            start == 0 || start == 1,
            (start == 1) == (s@[0] == '+'),
            body == s@.skip(start as int),
            parse_unsigned_spec(s@, max as nat) == scan_digits(body, max as nat, body.len() as int),
            scan_digits(body, max as nat, i - start) == Ok::<nat, IntParseFailure>(acc as nat),
            acc <= max,
        decreases n - i,
    {
        let c = s.get_char(i);
        assert(body[i - start] == c);
        if !('0' <= c && c <= '9') {
            proof {
                assert(scan_digits(body, max as nat, i - start + 1) == Err::<nat, IntParseFailure>(
                    IntParseFailure::InvalidDigit,
                ));
                lemma_scan_digits_stops(body, max as nat, i - start + 1, body.len() as int);
            }
            return Err(IntParseFailure::InvalidDigit);
        }
        let d = (c as u32 - '0' as u32) as u64;
        if d > max || acc > (max - d) / 10 {
            assert(acc * 10 + d > max) by (nonlinear_arith)
                requires
                    d > max || acc > (max - d) / 10,
                    d <= 9,
            ;
            proof {
                assert(scan_digits(body, max as nat, i - start + 1) == Err::<nat, IntParseFailure>(
                    IntParseFailure::PosOverflow,
                ));
                lemma_scan_digits_stops(body, max as nat, i - start + 1, body.len() as int);
            }
            return Err(IntParseFailure::PosOverflow);
        }
        assert(acc * 10 + d <= max) by (nonlinear_arith)
            requires
                acc <= (max - d) / 10,
                d <= max,
        ;
        acc = acc * 10 + d;
        i = i + 1;
    }
    Ok(acc)
}

proof fn lemma_scan_digits_stops(body: Seq<char>, max: nat, k: int, m: int)
    requires
        0 <= k <= m,
        scan_digits(body, max, k) is Err,
    ensures
        scan_digits(body, max, m) == scan_digits(body, max, k),
    decreases m - k,
{
    if k < m {
        lemma_scan_digits_stops(body, max, k, m - 1);
    }
}

/// A numeric setting: `default` when the variable is unset, else its value
/// read as an unsigned integer no larger than `max`; a value that does not
/// read gives the key, `: ` and the parser's message.
pub fn numeric_setting(key: &str, raw: Option<&str>, default: u64, max: u64) -> (r: Result<
    u64,
    ConfigError,
>)
    ensures
        match raw {
            None => r == Ok::<u64, ConfigError>(default),
            Some(s) => match parse_unsigned_spec(s@, max as nat) {
                Ok(v) => r == Ok::<u64, ConfigError>(v as u64),
                Err(e) => r matches Err(ConfigError(m)) && m@ == key@ + ": "@ + e.spec_message(),
            },
        },
{
    match raw {
        None => Ok(default),
        Some(s) => match parse_unsigned(s, max) {
            Ok(v) => Ok(v),
            Err(e) => {
                let mut m = String::from_str(key);
                m.append(": ");
                m.append(e.message());
                proof {
                    reveal_strlit(": ");
                }
                Err(ConfigError(m))
            },
        },
    }
}

} // verus!
