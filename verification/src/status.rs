//! Status of a downstream reply: its numeric code, whether the code counts
//! as success, and the line of text that reports it.

use crate::text::{decimal_digits, decimal_string};
use vstd::prelude::*;
use vstd::string::*;

verus! {

/// The canonical reason phrase that `http` (the crate behind
/// `reqwest::StatusCode`) gives for a status code, where it has one.
pub uninterp spec fn canonical_reason_of(code: u16) -> Option<Seq<char>>;

/// A code that can be the status of an HTTP reply: three decimal digits,
/// the first of them not zero.
pub open spec fn is_status_code(code: u16) -> bool {
    100 <= code <= 999
}

/// A code of the success class, 200 to 299.
pub open spec fn is_success_code(code: u16) -> bool {
    200 <= code < 300
}

/// The phrase printed after a code: its canonical reason, or a fixed text
/// where the code has none.
pub open spec fn reason_text(code: u16) -> Seq<char> {
    match canonical_reason_of(code) {
        Some(phrase) => phrase,
        None => "<unknown status code>"@,
    }
}

/// The line that reports a status: the code in decimal, a blank, the phrase.
pub open spec fn status_line(code: u16) -> Seq<char> {
    decimal_digits(code as nat) + seq![' '] + reason_text(code)
}

/// `reqwest::StatusCode::is_success`, asked of the status with this code.
/// Trusted: the answer is whether the code lies in 200 to 299.
#[verifier::external_body]
fn code_is_success(code: u16) -> (r: bool)
    requires
        is_status_code(code),
    ensures
        r == is_success_code(code),
{
    match reqwest::StatusCode::from_u16(code) {
        Ok(status) => status.is_success(),
        Err(_) => false,
    }
}

/// `reqwest::StatusCode::canonical_reason`, asked of the status with this
/// code. Trusted: the phrase depends on the code alone; nothing is claimed
/// of which codes have one or of what it says.
#[verifier::external_body]
fn canonical_reason(code: u16) -> (r: Option<String>)
    requires
        is_status_code(code),
    ensures
        match r {
            Some(phrase) => canonical_reason_of(code) == Some(phrase@),
            None => canonical_reason_of(code) == None::<Seq<char>>,
        },
{
    match reqwest::StatusCode::from_u16(code) {
        Ok(status) => status.canonical_reason().map(String::from),
        Err(_) => None,
    }
}

/// The status of a downstream reply.
#[derive(Clone, Copy, Debug, PartialEq, Eq)]
pub struct HttpStatus {
    code: u16,
}

impl View for HttpStatus {
    type V = u16;

    closed spec fn view(&self) -> u16 {
        self.code
    }
}

impl HttpStatus {
    #[verifier::type_invariant]
    spec fn well_formed(self) -> bool {
        is_status_code(self.code)
    }

    /// The status with the given code, for the codes from 100 to 999.
    pub fn from_u16(code: u16) -> (r: Option<HttpStatus>)
        ensures
            r.is_some() == is_status_code(code),
            r matches Some(status) ==> status@ == code,
    {
        if 100 <= code && code <= 999 {
            Some(HttpStatus { code })
        } else {
            None
        }
    }

    /// The numeric code.
    pub fn as_u16(&self) -> (code: u16)
        ensures
            code == self@,
            is_status_code(code),
    {
        proof {
            use_type_invariant(self);
        }
        self.code
    }

    /// Whether the status is of the success class.
    pub fn is_success(&self) -> (r: bool)
        ensures
            r == is_success_code(self@),
    {
        code_is_success(self.as_u16())
    }

    /// The line that reports this status, such as `403 Forbidden`.
    pub fn to_line(&self) -> (line: String)
        ensures
            line@ == status_line(self@),
    {
        let code = self.as_u16();
        let mut line = decimal_string(code as u64);
        line.append(" ");
        proof {
            reveal_strlit(" ");
        }
        match canonical_reason(code) {
            Some(phrase) => {
                line.append(phrase.as_str());
            },
            None => {
                line.append("<unknown status code>");
            },
        }
        line
    }
}

} // verus!
