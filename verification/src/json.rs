//! The little JSON that the server writes itself: numbers and quoted text.

use vstd::prelude::*;
use vstd::string::StringExecFns;

verus! {

/// `serde_json::Error`, taken as a type whose inside is not looked into.
#[verifier::external_type_specification]
#[verifier::external_body]
pub struct ExJsonError(serde_json::Error);

/// `text` as a JSON string: between double quotes, with the characters
/// escaped that JSON wants escaped. `None` stands for a text that the JSON
/// writer refuses.
pub uninterp spec fn json_string(text: Seq<char>) -> Option<Seq<char>>;

/// Writes `text` as a JSON string.
///
/// Not proved: this gives the name `json_string` to what
/// `serde_json::to_string` makes of a string slice, which depends on the
/// slice's text alone. It promises nothing else of it, not even that it
/// succeeds.
#[verifier::external_body]
pub(crate) fn quote(text: &str) -> (r: Result<String, serde_json::Error>)
    ensures
        match r {
            Ok(quoted) => json_string(text@) == Some(quoted@),
            Err(_) => json_string(text@) is None,
        },
{
    serde_json::to_string(text)
}

/// The digit `d` as text.
pub open spec fn digit_text(d: nat) -> Seq<char> {
    if d == 0 {
        "0"@
    } else if d == 1 {
        "1"@
    } else if d == 2 {
        "2"@
    } else if d == 3 {
        "3"@
    } else if d == 4 {
        "4"@
    } else if d == 5 {
        "5"@
    } else if d == 6 {
        "6"@
    } else if d == 7 {
        "7"@
    } else if d == 8 {
        "8"@
    } else {
        "9"@
    }
}

/// The decimal digits of `n`, highest first, without leading zeros.
pub open spec fn natural_text(n: nat) -> Seq<char>
    decreases n,
{
    if n < 10 {
        digit_text(n)
    } else {
        natural_text(n / 10) + digit_text(n % 10)
    }
}

/// `n` in decimal, with a minus sign in front when it is below zero.
pub open spec fn decimal_text(n: int) -> Seq<char> {
    if n < 0 {
        "-"@ + natural_text((-n) as nat)
    } else {
        natural_text(n as nat)
    }
}

fn digit(d: u32) -> (text: &'static str)
    requires
        d < 10,
    ensures
        text@ == digit_text(d as nat),
{
    if d == 0 {
        "0"
    } else if d == 1 {
        "1"
    } else if d == 2 {
        "2"
    } else if d == 3 {
        "3"
    } else if d == 4 {
        "4"
    } else if d == 5 {
        "5"
    } else if d == 6 {
        "6"
    } else if d == 7 {
        "7"
    } else if d == 8 {
        "8"
    } else {
        "9"
    }
}

fn push_natural(out: &mut String, n: u32)
    ensures
        final(out)@ == old(out)@ + natural_text(n as nat),
    decreases n,
{
    if n >= 10 {
        push_natural(out, n / 10);
    }
    out.append(digit(n % 10));
}

/// Writes `n` in decimal at the end of `out`.
pub fn push_decimal(out: &mut String, n: i32)
    ensures
        final(out)@ == old(out)@ + decimal_text(n as int),
{
    if n < 0 {
        out.append("-");
        push_natural(out, (-(n as i64)) as u32);
    } else {
        push_natural(out, n as u32);
    }
}

} // verus!
