//! HTTP status codes as Kratos returns them.
use vstd::prelude::*;

verus! {

pub const STATUS_INTERNAL_SERVER_ERROR: u16 = 500;
pub const STATUS_FOUND: u16 = 302;
pub const STATUS_SEE_OTHER: u16 = 303;
pub const STATUS_BAD_REQUEST: u16 = 400;
pub const STATUS_UNAUTHORIZED: u16 = 401;
pub const STATUS_FORBIDDEN: u16 = 403;
pub const STATUS_GONE: u16 = 410;
pub const STATUS_TOO_MANY_REQUESTS: u16 = 429;

/// A valid HTTP status code: a number from 100 to 999.
#[derive(Debug, Clone, Copy)]
pub struct HttpStatus {
    code: u16,
}

/// The code is in the 2xx range.
pub open spec fn is_success_code(code: u16) -> bool {
    200 <= code < 300
}

/// The decimal digit `d` as a character.
pub open spec fn digit_char(d: int) -> char {
    ((d + 48) as u32) as char
}

/// The three decimal digits of a code from 100 to 999.
pub open spec fn three_digits(code: u16) -> Seq<char> {
    seq![
        digit_char(code as int / 100),
        digit_char((code as int / 10) % 10),
        digit_char(code as int % 10),
    ]
}

impl HttpStatus {
    #[verifier::type_invariant]
    spec fn valid(self) -> bool {
        100 <= self.code <= 999
    }

    /// The numeric code.
    pub closed spec fn spec_code(self) -> u16 {
        self.code
    }

    /// The status with the given code, if it is a valid code.
    pub fn new(code: u16) -> (r: Option<HttpStatus>)
        ensures
            r is Some <==> 100 <= code <= 999,
            r matches Some(s) ==> s.spec_code() == code,
    {
        if 100 <= code && code <= 999 {
            Some(HttpStatus { code })
        } else {
            None
        }
    }

    /// The numeric code.
    pub fn code(&self) -> (c: u16)
        ensures
            c == self.spec_code(),
            100 <= c <= 999,
    {
        proof {
            use_type_invariant(self);
        }
        self.code
    }

    /// The code is in the 2xx range.
    pub fn is_success(&self) -> (b: bool)
        ensures
            b == is_success_code(self.spec_code()),
    {
        200 <= self.code && self.code < 300
    }

    /// The status as `http::StatusCode` displays it.
    pub fn display(&self) -> (r: String)
        ensures
            r@ == status_line(self.spec_code()),
    {
        let c = self.code();
        status_line_text(c)
    }
}

/// What `http::StatusCode`'s `Display` writes for a valid code.
pub uninterp spec fn status_line(code: u16) -> Seq<char>;

/// Calls `reqwest::StatusCode::from_u16` (which accepts every code from 100
/// to 999) and formats the status with `Display`. The http crate writes the
/// code in decimal, a space, and then the canonical reason phrase, or
/// `<unknown status code>` where it knows none; the contract states the
/// three digits and the space. The reason phrase, taken from the crate's
/// table, is left unsaid.
#[verifier::external_body]
fn status_line_text(code: u16) -> (r: String)
    requires
        100 <= code <= 999,
    ensures
        r@ == status_line(code),
        r@.len() > 4,
        r@.take(3) == three_digits(code),
        r@[3] == ' ',
{
    reqwest::StatusCode::from_u16(code).unwrap().to_string()
}

} // verus!
