//! HTTP status codes of a provider's answer.

use vstd::prelude::*;

verus! {

/// A status code is a number of three decimal digits.
pub open spec fn valid_status(code: u16) -> bool {
    100 <= code <= 999
}

/// The 2xx class: the provider accepted the request.
pub open spec fn success_status(code: u16) -> bool {
    200 <= code < 300
}

/// The character for a single decimal digit.
pub open spec fn digit_char(digit: nat) -> char
    recommends
        digit < 10,
{
    (48 + digit) as u8 as char
}

/// The decimal digits of `n`, most significant first, without leading zeros.
pub open spec fn decimal_digits(n: nat) -> Seq<char>
    decreases n,
{
    if n < 10 {
        seq![digit_char(n)]
    } else {
        decimal_digits(n / 10).push(digit_char(n % 10))
    }
}

/// The reason phrase that the `http` crate prints after a status code: the
/// canonical one where it knows the code, and its placeholder for an unknown
/// code otherwise.
pub uninterp spec fn reason_phrase(code: u16) -> Seq<char>;

/// A status code as it is printed: its number, a space, its reason phrase.
pub open spec fn status_text(code: u16) -> Seq<char> {
    decimal_digits(code as nat) + seq![' '] + reason_phrase(code)
}

/// Formats a status code with `Display` of `reqwest::StatusCode`.
///
/// Trusted: the text is the code in decimal, one space, and the reason phrase
/// of the code. `StatusCode::from_u16` accepts exactly the codes from 100 to
/// 999, so the empty fallback is never taken.
#[verifier::external_body]
fn print_status(code: u16) -> (text: String)
    requires
        valid_status(code),
    ensures
        text@ == decimal_digits(code as nat) + seq![' '] + reason_phrase(code),
{
    match reqwest::StatusCode::from_u16(code) {
        Ok(status) => status.to_string(),
        Err(_) => String::new(),
    }
}

/// The status code of an HTTP response: always between 100 and 999.
#[derive(Clone, Copy, Debug, PartialEq, Eq)]
pub struct HttpStatus {
    code: u16,
}

impl View for HttpStatus {
    type V = u16;

    closed spec fn view(&self) -> u16 {
        self.code
    }
}

impl HttpStatus {
    #[verifier::type_invariant]
    spec fn in_range(self) -> bool {
        valid_status(self.code)
    }

    /// Accepts `code` if it is a three-digit number.
    pub fn from_u16(code: u16) -> (status: Option<HttpStatus>)
        ensures
            match status {
                Some(s) => valid_status(code) && s@ == code,
                None => !valid_status(code),
            },
    {
        if 100 <= code && code <= 999 {
            Some(HttpStatus { code })
        } else {
            None
        }
    }

    /// The code as a number.
    pub fn as_u16(&self) -> (code: u16)
        ensures
            code == self@,
            valid_status(code),
    {
        proof {
            use_type_invariant(self);
        }
        self.code
    }

    /// Whether the code is in the 2xx class.
    pub fn is_success(&self) -> (success: bool)
        ensures
            success == success_status(self@),
    {
        200 <= self.code && self.code < 300
    }

    /// The code as it is printed in messages, for example `404 Not Found`.
    pub fn to_text(&self) -> (text: String)
        ensures
            text@ == status_text(self@),
    {
        proof {
            use_type_invariant(self);
        }
        print_status(self.code)
    }
}

} // verus!
