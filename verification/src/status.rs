//! HTTP status codes as the back end answers them.

use vstd::prelude::*;
use crate::text::decimal_nat;

verus! {

/// The reason phrase that `Display` of `reqwest::StatusCode` writes after the
/// number of a code: its canonical reason, or `<unknown status code>`.
pub uninterp spec fn status_reason_text(code: u16) -> Seq<char>;

/// What `Display` of `reqwest::StatusCode` writes for a code: the number in
/// decimal, a space, and the reason phrase.
pub open spec fn status_code_text(code: u16) -> Seq<char> {
    decimal_nat(code as nat) + seq![' '] + status_reason_text(code)
}

/// `reqwest::StatusCode::is_success` on the status whose number is `code`.
/// The documentation of the method says that it checks that the status is
/// within 200-299; that is what the contract states.
#[verifier::external_body]
fn reqwest_status_is_success(code: u16) -> (r: bool)
    requires
        100 <= code <= 999,
    ensures
        r == (200 <= code < 300),
{
    match reqwest::StatusCode::from_u16(code) {
        Ok(status) => status.is_success(),
        Err(_) => false,
    }
}

/// `reqwest::StatusCode::as_str` on the status whose number is `code`. The
/// documentation says that it is the numerical representation of the code
/// alone; for a code of 100-999 that is its three decimal digits, which the
/// contract states.
#[verifier::external_body]
fn reqwest_status_as_str(code: u16) -> (r: String)
    requires
        100 <= code <= 999,
    ensures
        r@ == decimal_nat(code as nat),
{
    match reqwest::StatusCode::from_u16(code) {
        Ok(status) => status.as_str().to_string(),
        Err(_) => String::new(),
    }
}

/// `Display` of `reqwest::StatusCode` (through `to_string`) on the status
/// whose number is `code`: as its source writes it, the number, a space and
/// the reason phrase. The reason phrase, which comes from the crate's table
/// of canonical reasons, is given the name `status_reason_text`; nothing
/// more is claimed of it.
#[verifier::external_body]
fn reqwest_status_to_string(code: u16) -> (r: String)
    requires
        100 <= code <= 999,
    ensures
        r@ == decimal_nat(code as nat) + seq![' '] + status_reason_text(code),
{
    match reqwest::StatusCode::from_u16(code) {
        Ok(status) => status.to_string(),
        Err(_) => String::new(),
    }
}

/// An HTTP status code: a number of 100-999, as `reqwest::StatusCode` holds
/// it.
#[derive(Clone, Copy, Debug, PartialEq, Eq)]
pub struct StatusCode {
    code: u16,
}

impl View for StatusCode {
    type V = u16;

    closed spec fn view(&self) -> u16 {
        self.code
    }
}

impl StatusCode {
    #[verifier::type_invariant]
    spec fn in_range(self) -> bool {
        100 <= self.code <= 999
    }

    /// The status with the number `code`, or `None` where `code` is not a
    /// status number (outside 100-999).
    pub fn from_u16(code: u16) -> (r: Option<StatusCode>)
        ensures
            r is Some <==> 100 <= code <= 999,
            r matches Some(s) ==> s@ == code,
    {
        if 100 <= code && code <= 999 {
            Some(StatusCode { code })
        } else {
            None
        }
    }

    /// The number of the status.
    pub fn as_u16(&self) -> (r: u16)
        ensures
            r == self@,
            100 <= r <= 999,
    {
        proof {
            use_type_invariant(self);
        }
        self.code
    }

    /// Whether the status is within 200-299.
    pub fn is_success(&self) -> (r: bool)
        ensures
            r == (200 <= self@ < 300),
    {
        proof {
            use_type_invariant(self);
        }
        reqwest_status_is_success(self.code)
    }

    /// The status number in decimal, as `StatusCode::as_str` gives it.
    pub fn as_str(&self) -> (r: String)
        ensures
            r@ == decimal_nat(self@ as nat),
    {
        proof {
            use_type_invariant(self);
        }
        reqwest_status_as_str(self.code)
    }

    /// The number with its reason phrase, as `StatusCode` displays.
    pub fn to_text(&self) -> (r: String)
        ensures
            r@ == status_code_text(self@),
    {
        proof {
            use_type_invariant(self);
        }
        reqwest_status_to_string(self.code)
    }
}

} // verus!
