use vstd::prelude::*;
use vstd::string::*;
use crate::model::opt_view;

verus! {

/// What became of one HTTP request against a target.
#[derive(Clone, Debug)]
pub enum HttpOutcome {
    /// A response came back with this status code.
    Response(u16),
    /// The request was built but could not be carried out; the message says why.
    SendFailed(String),
    /// The request could not be built (a malformed URL, say); the message says why.
    BuildFailed(String),
}

/// The standard reason phrase of a status code, if it has one.
pub uninterp spec fn canonical_reason_of(code: u16) -> Option<Seq<char>>;

/// Relies on `reqwest::StatusCode::is_success`: true exactly for the codes 200 to 299.
/// Codes that `StatusCode::from_u16` refuses (under 100, over 999) are no success either.
#[verifier::external_body]
fn is_success(code: u16) -> (r: bool)
    ensures
        r == (200 <= code && code <= 299),
{
    match reqwest::StatusCode::from_u16(code) {
        Ok(s) => s.is_success(),
        Err(_) => false,
    }
}

/// Relies on `reqwest::StatusCode::canonical_reason`: the phrase registered for the code,
/// a function of the code alone. Codes that `StatusCode::from_u16` refuses have none.
#[verifier::external_body]
fn canonical_reason(code: u16) -> (r: Option<String>)
    ensures
        opt_view(r) == canonical_reason_of(code),
{
    match reqwest::StatusCode::from_u16(code) {
        Ok(s) => s.canonical_reason().map(String::from),
        Err(_) => None,
    }
}

pub open spec fn digit_char(d: int) -> char {
    if d == 0 {
        '0'
    } else if d == 1 {
        '1'
    } else if d == 2 {
        '2'
    } else if d == 3 {
        '3'
    } else if d == 4 {
        '4'
    } else if d == 5 {
        '5'
    } else if d == 6 {
        '6'
    } else if d == 7 {
        '7'
    } else if d == 8 {
        '8'
    } else {
        '9'
    }
}

/// The decimal digits of `n`, most significant first, without leading zeros.
pub open spec fn decimal(n: nat) -> Seq<char>
    decreases n,
{
    if n < 10 {
        seq![digit_char(n as int)]
    } else {
        decimal(n / 10).push(digit_char((n % 10) as int))
    }
}

fn digit_str(d: u16) -> (r: &'static str)
    requires
        d < 10,
    ensures
        r@ == seq![digit_char(d as int)],
{
    proof {
        reveal_strlit("0");
        reveal_strlit("1");
        reveal_strlit("2");
        reveal_strlit("3");
        reveal_strlit("4");
        reveal_strlit("5");
        reveal_strlit("6");
        reveal_strlit("7");
        reveal_strlit("8");
        reveal_strlit("9");
    }
    let r = if d == 0 {
        "0"
    } else if d == 1 {
        "1"
    } else if d == 2 {
        "2"
    } else if d == 3 {
        "3"
    } else if d == 4 {
        "4"
    } else if d == 5 {
        "5"
    } else if d == 6 {
        "6"
    } else if d == 7 {
        "7"
    } else if d == 8 {
        "8"
    } else {
        "9"
    };
    assert(r@ =~= seq![digit_char(d as int)]);
    r
}

/// `n` written in decimal.
pub fn decimal_string(n: u16) -> (r: String)
    ensures
        r@ == decimal(n as nat),
    decreases n,
{
    if n < 10 {
        String::from_str(digit_str(n))
    } else {
        let mut s = decimal_string(n / 10);
        s.append(digit_str(n % 10));
        s
    }
}

/// The reason recorded for a response whose status is no success:
/// the code, a space, and its standard phrase ("Unknown" for a code without one).
pub open spec fn status_reason(code: u16) -> Seq<char> {
    decimal(code as nat) + " "@ + match canonical_reason_of(code) {
        Some(p) => p,
        None => "Unknown"@,
    }
}

/// The verdict of one check: whether the target is up, and if not, why.
pub open spec fn verdict_spec(o: HttpOutcome) -> (bool, Option<Seq<char>>) {
    match o {
        HttpOutcome::Response(code) => if 200 <= code && code <= 299 {
            (true, None)
        } else {
            (false, Some(status_reason(code)))
        },
        HttpOutcome::SendFailed(m) => (false, Some("Could not execute request: "@ + m@)),
        HttpOutcome::BuildFailed(m) => (false, Some("Could not build request: "@ + m@)),
    }
}

/// Classifies the outcome of one HTTP check: up with no reason exactly when a
/// response with a successful status came back; otherwise down, with a reason.
pub fn http_verdict(outcome: &HttpOutcome) -> (r: (bool, Option<String>))
    ensures
        r.0 == verdict_spec(*outcome).0,
        opt_view(r.1) == verdict_spec(*outcome).1,
{
    match outcome {
        HttpOutcome::Response(code) => {
            if is_success(*code) {
                (true, None)
            } else {
                let mut s = decimal_string(*code);
                s.append(" ");
                match canonical_reason(*code) {
                    Some(p) => s.append(p.as_str()),
                    None => s.append("Unknown"),
                }
                (false, Some(s))
            }
        },
        HttpOutcome::SendFailed(m) => {
            let s = String::from_str("Could not execute request: ").concat(m.as_str());
            (false, Some(s))
        },
        HttpOutcome::BuildFailed(m) => {
            let s = String::from_str("Could not build request: ").concat(m.as_str());
            (false, Some(s))
        },
    }
}

} // verus!
