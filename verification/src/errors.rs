//! The service's error type, the HTTP status each error maps to, and the JSON
//! body that carries its message.
use vstd::prelude::*;

verus! {

/// Errors that request handlers return.
#[derive(Debug, Clone)]
pub enum CustomError {
    SerializeError(String),
    ValidationError(String),
    InternalError(String),
    UnauthorizedError(String),
    ForbiddenError(String),
    NotFoundError(String),
    ConflictError(String),
    PreconditionFailedError(String),
}

/// How loudly a failed request is logged.
#[derive(Clone, Copy, Debug, PartialEq, Eq, Structural)]
pub enum LogLevel {
    /// Server-side failures.
    Error,
    /// Rejections that hint at a misbehaving client (400, 401, 403).
    Warn,
    /// Other client errors, which are expected traffic.
    Quiet,
}

impl CustomError {
    /// The message the error carries.
    pub open spec fn msg(self) -> Seq<char> {
        match self {
            CustomError::SerializeError(m) => m@,
            CustomError::ValidationError(m) => m@,
            CustomError::InternalError(m) => m@,
            CustomError::UnauthorizedError(m) => m@,
            CustomError::ForbiddenError(m) => m@,
            CustomError::NotFoundError(m) => m@,
            CustomError::ConflictError(m) => m@,
            CustomError::PreconditionFailedError(m) => m@,
        }
    }

    /// The name of the variant.
    pub open spec fn kind_name(self) -> Seq<char> {
        match self {
            CustomError::SerializeError(_) => "SerializeError"@,
            CustomError::ValidationError(_) => "ValidationError"@,
            CustomError::InternalError(_) => "InternalError"@,
            CustomError::UnauthorizedError(_) => "UnauthorizedError"@,
            CustomError::ForbiddenError(_) => "ForbiddenError"@,
            CustomError::NotFoundError(_) => "NotFoundError"@,
            CustomError::ConflictError(_) => "ConflictError"@,
            CustomError::PreconditionFailedError(_) => "PreconditionFailedError"@,
        }
    }

    /// The HTTP status code of the response for this error.
    pub open spec fn status(self) -> u16 {
        match self {
            CustomError::SerializeError(_) => 400,
            CustomError::ValidationError(_) => 422,
            CustomError::InternalError(_) => 500,
            CustomError::UnauthorizedError(_) => 401,
            CustomError::ForbiddenError(_) => 403,
            CustomError::NotFoundError(_) => 404,
            CustomError::ConflictError(_) => 409,
            CustomError::PreconditionFailedError(_) => 412,
        }
    }

    pub fn kind(&self) -> (r: &'static str)
        ensures
            r@ == self.kind_name(),
    {
        match self {
            CustomError::SerializeError(_) => "SerializeError",
            CustomError::ValidationError(_) => "ValidationError",
            CustomError::InternalError(_) => "InternalError",
            CustomError::UnauthorizedError(_) => "UnauthorizedError",
            CustomError::ForbiddenError(_) => "ForbiddenError",
            CustomError::NotFoundError(_) => "NotFoundError",
            CustomError::ConflictError(_) => "ConflictError",
            CustomError::PreconditionFailedError(_) => "PreconditionFailedError",
        }
    }

    pub fn message(&self) -> (r: &str)
        ensures
            r@ == self.msg(),
    {
        match self {
            CustomError::SerializeError(m) => m.as_str(),
            CustomError::ValidationError(m) => m.as_str(),
            CustomError::InternalError(m) => m.as_str(),
            CustomError::UnauthorizedError(m) => m.as_str(),
            CustomError::ForbiddenError(m) => m.as_str(),
            CustomError::NotFoundError(m) => m.as_str(),
            CustomError::ConflictError(m) => m.as_str(),
            CustomError::PreconditionFailedError(m) => m.as_str(),
        }
    }

    pub fn status_code(&self) -> (r: u16)
        ensures
            r == self.status(),
    {
        match self {
            CustomError::SerializeError(_) => 400,
            CustomError::ValidationError(_) => 422,
            CustomError::InternalError(_) => 500,
            CustomError::UnauthorizedError(_) => 401,
            CustomError::ForbiddenError(_) => 403,
            CustomError::NotFoundError(_) => 404,
            CustomError::ConflictError(_) => 409,
            CustomError::PreconditionFailedError(_) => 412,
        }
    }

    /// Server errors (5xx) are logged as errors, 400/401/403 as warnings,
    /// other client errors not at all.
    pub fn log_level(&self) -> (r: LogLevel)
        ensures
            500 <= self.status() <= 599 ==> r == LogLevel::Error,
            (self.status() == 400 || self.status() == 401 || self.status() == 403) ==> r
                == LogLevel::Warn,
            !(500 <= self.status() <= 599) && !(self.status() == 400 || self.status() == 401
                || self.status() == 403) ==> r == LogLevel::Quiet,
    {
        let code = self.status_code();
        if 500 <= code && code <= 599 {
            LogLevel::Error
        } else if code == 401 || code == 403 || code == 400 {
            LogLevel::Warn
        } else {
            LogLevel::Quiet
        }
    }

    /// The body of the HTTP response for this error.
    pub fn response_body(&self) -> (r: String)
        ensures
            r@ == error_response_json(self.msg()),
    {
        ErrorResponse::to_json(self.message())
    }
}

/// A validation check's outcome: `None` passes, `Some(m)` rejects the input
/// with a validation error whose message is `m`.
pub open spec fn check_result(r: Result<(), CustomError>, expected: Option<Seq<char>>) -> bool {
    match expected {
        None => r is Ok,
        Some(m) => r matches Err(CustomError::ValidationError(s)) && s@ == m,
    }
}

/// A validation error with the given message.
pub fn validation_error(msg: &str) -> (r: CustomError)
    ensures
        r matches CustomError::ValidationError(s) && s@ == msg@,
{
    CustomError::ValidationError(msg.to_owned())
}

/// How `serde_json` writes one character inside a JSON string literal.
pub open spec fn json_escape_char(c: char) -> Seq<char> {
    let v = c as u32;
    if c == '"' {
        seq!['\\', '"']
    } else if c == '\\' {
        seq!['\\', '\\']
    } else if v == 0x08 {
        seq!['\\', 'b']
    } else if v == 0x09 {
        seq!['\\', 't']
    } else if v == 0x0A {
        seq!['\\', 'n']
    } else if v == 0x0C {
        seq!['\\', 'f']
    } else if v == 0x0D {
        seq!['\\', 'r']
    } else if v < 0x20 {
        seq!['\\', 'u', '0', '0', hex_digit_lower(v / 16), hex_digit_lower(v % 16)]
    } else {
        seq![c]
    }
}

/// Lower-case hexadecimal digit of a value below 16.
pub open spec fn hex_digit_lower(d: u32) -> char {
    if d < 10 {
        (('0' as u32) + d) as char
    } else {
        (('a' as u32) + d - 10) as char
    }
}

/// The escaped characters of a string, without the surrounding quotes.
pub open spec fn json_escape(s: Seq<char>) -> Seq<char>
    decreases s.len(),
{
    if s.len() == 0 {
        seq![]
    } else {
        json_escape(s.drop_last()) + json_escape_char(s.last())
    }
}

/// The JSON string literal `serde_json` writes for a string.
pub open spec fn json_quote(s: Seq<char>) -> Seq<char> {
    seq!['"'] + json_escape(s) + seq!['"']
}

/// `serde_json::to_string` on a string: the string as a JSON string literal.
/// The contract restates `serde_json`'s escaping table (`ESCAPE` and
/// `write_char_escape` in its `ser.rs`): quote, backslash and the control
/// characters below U+0020 are escaped, everything else is copied.
#[verifier::external_body]
pub(crate) fn json_string_literal(s: &str) -> (r: String)
    ensures
        r@ == json_quote(s@),
{
    serde_json::to_string(s).unwrap()
}

/// The pretty-printed JSON object `{"message": ...}` that carries an error
/// message.
pub open spec fn error_response_json(message: Seq<char>) -> Seq<char> {
    "{\n  \"message\": "@ + json_quote(message) + "\n}"@
}

/// The JSON body of an error response.
pub struct ErrorResponse<'a> {
    pub message: &'a str,
}

impl ErrorResponse<'_> {
    /// The object `{"message": message}`, pretty-printed as
    /// `serde_json::to_string_pretty` prints it.
    pub fn to_json(message: &str) -> (r: String)
        ensures
            r@ == error_response_json(message@),
    {
        let mut out = String::from_str("{\n  \"message\": ");
        let quoted = json_string_literal(message);
        out.append(quoted.as_str());
        out.append("\n}");
        out
    }
}

} // verus!
