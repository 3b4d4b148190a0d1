//! HTTP status codes.
//!
//! The library holds a status code as a number between 100 and 999, the range
//! that the transport accepts. What a code means and how it is written are
//! the transport's business: the three private functions at the end of this
//! file ask it, and their contracts are trusted, not proved.

use crate::duration::decimal_text;
use reqwest::StatusCode;
use vstd::prelude::*;

verus! {

/// The least number that is a status code.
pub const MIN_STATUS: u16 = 100;

/// The greatest number that is a status code.
pub const MAX_STATUS: u16 = 999;

/// The text that the transport writes for a status code, such as
/// `404 Not Found`.
pub uninterp spec fn status_display(code: u16) -> Seq<char>;

/// Whether `text` begins with the decimal digits of `code` and a space.
pub open spec fn leads_with_code(text: Seq<char>, code: u16) -> bool {
    decimal_text(code as nat).push(' ').is_prefix_of(text)
}

/// Whether the transport counts a code as a success.
pub open spec fn success_code(code: u16) -> bool {
    200 <= code < 300
}

/// The status code of an HTTP response.
#[derive(Debug, Clone, Copy, PartialEq, Eq)]
pub struct HttpStatus {
    code: u16,
}

impl View for HttpStatus {
    type V = u16;

    closed spec fn view(&self) -> u16 {
        self.code
    }
}

impl HttpStatus {
    #[verifier::type_invariant]
    spec fn in_range(self) -> bool {
        MIN_STATUS <= self.code <= MAX_STATUS
    }

    /// The status with the given code, if the number is a status code.
    pub fn new(code: u16) -> (status: Option<HttpStatus>)
        ensures
            status is Some <==> MIN_STATUS <= code <= MAX_STATUS,
            status is Some ==> status->Some_0@ == code,
    {
        if MIN_STATUS <= code && code <= MAX_STATUS {
            Some(HttpStatus { code })
        } else {
            None
        }
    }

    /// The status that stands for a failure of which the transport knows no
    /// code: 404, "not found".
    pub fn not_found() -> (status: HttpStatus)
        ensures
            status@ == 404,
    {
        HttpStatus { code: not_found_code() }
    }

    /// The code as a number.
    pub fn code(&self) -> (code: u16)
        ensures
            code == self@,
            MIN_STATUS <= code <= MAX_STATUS,
    {
        proof {
            use_type_invariant(self);
        }
        self.code
    }

    /// Whether the status is a success: a code from 200 to 299.
    pub fn is_success(&self) -> (success: bool)
        ensures
            success == success_code(self@),
    {
        proof {
            use_type_invariant(self);
        }
        code_is_success(self.code)
    }

    /// The status as the transport writes it: the code, a space, and the
    /// transport's name for the code.
    pub fn text(&self) -> (text: String)
        ensures
            text@ == status_display(self@),
            leads_with_code(text@, self@),
    {
        proof {
            use_type_invariant(self);
        }
        code_text(self.code)
    }
}

/// Trusted: `StatusCode::is_success` answers whether the code lies between
/// 200 and 299.
#[verifier::external_body]
fn code_is_success(code: u16) -> (success: bool)
    requires
        MIN_STATUS <= code <= MAX_STATUS,
    ensures
        success == success_code(code),
{
    StatusCode::from_u16(code).unwrap().is_success()
}

/// Trusted: the `Display` of `StatusCode` writes the code in decimal, a
/// space, and the canonical reason phrase of the code or a placeholder where
/// it has none. The whole text goes by the name [`status_display`].
#[verifier::external_body]
fn code_text(code: u16) -> (text: String)
    requires
        MIN_STATUS <= code <= MAX_STATUS,
    ensures
        text@ == status_display(code),
        leads_with_code(text@, code),
{
    format!("{}", StatusCode::from_u16(code).unwrap())
}

/// Trusted: `StatusCode::NOT_FOUND` is the code 404.
#[verifier::external_body]
fn not_found_code() -> (code: u16)
    ensures
        code == 404,
{
    StatusCode::NOT_FOUND.as_u16()
}

} // verus!
