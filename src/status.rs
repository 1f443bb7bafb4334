//! Status codes: coercion from raw numbers, reason phrases and status lines.

use vstd::prelude::*;

verus! {

/// A status code accepted by the HTTP layer: three decimal digits.
pub open spec fn is_valid_code(n: u16) -> bool {
    100 <= n && n <= 999
}

/// The canonical reason phrase that the HTTP layer knows for a code, if any.
pub uninterp spec fn canonical_reason_of(code: u16) -> Option<Seq<char>>;

/// The character of a decimal digit.
pub open spec fn digit_char(d: int) -> char
    recommends
        0 <= d < 10,
{
    seq!['0', '1', '2', '3', '4', '5', '6', '7', '8', '9'][d]
}

/// The decimal text of a natural number, without leading zeros.
pub open spec fn nat_text(n: nat) -> Seq<char>
    decreases n,
{
    if n < 10 {
        seq![digit_char(n as int)]
    } else {
        nat_text(n / 10) + seq![digit_char((n % 10) as int)]
    }
}

/// The reason phrase shown in a status line.
pub open spec fn reason_text(code: u16) -> Seq<char> {
    match canonical_reason_of(code) {
        Some(r) => r,
        None => "<unknown status code>"@,
    }
}

/// The status line of a code: its number, a space and its reason phrase.
pub open spec fn status_line(code: u16) -> Seq<char> {
    nat_text(code as nat) + seq![' '] + reason_text(code)
}

/// Relies on `StatusCode::from_u16` of the http crate: it accepts exactly
/// the numbers from 100 to 999.
#[verifier::external_body]
fn http_accepts(n: u16) -> (r: bool)
    ensures
        r == is_valid_code(n),
{
    axum::http::StatusCode::from_u16(n).is_ok()
}

/// Relies on `StatusCode::canonical_reason` of the http crate: the phrase is
/// looked up from the number alone.
#[verifier::external_body]
fn http_reason(n: u16) -> (r: Option<&'static str>)
    requires
        is_valid_code(n),
    ensures
        match r {
            Some(s) => canonical_reason_of(n) == Some(s@),
            None => canonical_reason_of(n) is None,
        },
{
    match axum::http::StatusCode::from_u16(n) {
        Ok(c) => c.canonical_reason(),
        Err(_) => None,
    }
}

/// Relies on the `Display` impl of the http crate's `StatusCode`: the number,
/// a space, then the canonical reason or `<unknown status code>`.
#[verifier::external_body]
fn http_status_line(n: u16) -> (r: String)
    requires
        is_valid_code(n),
    ensures
        r@ == status_line(n),
{
    match axum::http::StatusCode::from_u16(n) {
        Ok(c) => c.to_string(),
        Err(_) => String::new(),
    }
}

/// A resolved status code. Only a valid number is ever held.
#[derive(Clone, Copy, Debug, PartialEq, Eq)]
pub struct Status {
    code: u16,
}

impl Status {
    #[verifier::type_invariant]
    spec fn inv(self) -> bool {
        is_valid_code(self.code)
    }

    /// The number of this status code.
    pub closed spec fn value(self) -> u16 {
        self.code
    }

    /// The number of this status code.
    pub fn code(&self) -> (r: u16)
        ensures
            r == self.value(),
            is_valid_code(r),
    {
        proof {
            use_type_invariant(self);
        }
        self.code
    }

    /// The canonical reason phrase of this status code, if it has one.
    pub fn reason(&self) -> (r: Option<&'static str>)
        ensures
            match r {
                Some(s) => canonical_reason_of(self.value()) == Some(s@),
                None => canonical_reason_of(self.value()) is None,
            },
    {
        let n = self.code();
        http_reason(n)
    }

    /// The status line of this code, such as `404 Not Found`.
    pub fn line(&self) -> (r: String)
        ensures
            r@ == status_line(self.value()),
    {
        let n = self.code();
        http_status_line(n)
    }
}

/// Coerces a number into a status code, or `None` when the number is not one.
pub fn try_resolve(code: u16) -> (r: Option<Status>)
    ensures
        r is Some <==> is_valid_code(code),
        r matches Some(s) ==> s.value() == code,
{
    if http_accepts(code) {
        Some(Status { code })
    } else {
        None
    }
}

/// Coerces a number into a status code. An invalid number is a caller's bug.
pub fn resolve(code: u16) -> (r: Status)
    requires
        is_valid_code(code),
    ensures
        r.value() == code,
{
    match try_resolve(code) {
        Some(s) => s,
        None => Status { code },
    }
}

/// A number that resolves comes back unchanged from the resolved code.
pub proof fn lemma_resolve_round_trip(n: u16, s: Status, back: u16)
    requires
        call_ensures(try_resolve, (n,), Some(s)),
        call_ensures(Status::code, (&s,), back),
    ensures
        back == n,
        is_valid_code(n),
{
}

} // verus!
