//! Rendering of the report's numbers: integers with thousands separators,
//! and the no-data sentinel for empty percentile fields.

use vstd::prelude::*;
use thousands::Separable;

verus! {

/// The ASCII digit of one decimal place.
pub open spec fn digit_char(d: int) -> char {
    if d == 0 {
        '0'
    } else if d == 1 {
        '1'
    } else if d == 2 {
        '2'
    } else if d == 3 {
        '3'
    } else if d == 4 {
        '4'
    } else if d == 5 {
        '5'
    } else if d == 6 {
        '6'
    } else if d == 7 {
        '7'
    } else if d == 8 {
        '8'
    } else {
        '9'
    }
}

/// The decimal digits of `n`, most significant first.
pub open spec fn decimal_rep(n: nat) -> Seq<char>
    decreases n,
{
    if n < 10 {
        seq![digit_char(n as int)]
    } else {
        decimal_rep(n / 10).push(digit_char((n % 10) as int))
    }
}

/// Digits regrouped with an underscore before every three digits counted
/// from the right.
pub open spec fn grouped(s: Seq<char>) -> Seq<char>
    decreases s.len(),
{
    if s.len() <= 3 {
        s
    } else {
        grouped(s.take(s.len() - 3)).push('_') + s.skip(s.len() - 3)
    }
}

/// The decimal rendering of `n` with an underscore every three digits.
pub open spec fn grouped_decimal(n: u64) -> Seq<char> {
    grouped(decimal_rep(n as nat))
}

/// Relies on thousands' `Separable::separate_with_underscores` for `u64`:
/// the decimal digits, grouped by three from the right with underscores.
#[verifier::external_body]
fn grouped_raw(n: u64) -> (r: String)
    ensures
        r@ == grouped_decimal(n),
{
    n.separate_with_underscores()
}

/// An operation count, byte count or microsecond value as the report shows
/// it: decimal with an underscore every three digits.
pub fn format_count(n: u64) -> (r: String)
    ensures
        r@ == grouped_decimal(n),
{
    grouped_raw(n)
}

/// A percentile field: the separated value in microseconds, or the no-data
/// sentinel when the histogram was empty.
pub fn percentile_field(p: Option<u64>) -> (r: String)
    ensures
        p is None ==> r@ == "-"@,
        p is Some ==> r@ == grouped_decimal(p->Some_0),
{
    broadcast use vstd::string::to_string_from_display_ensures_for_str;

    match p {
        Option::None => "-".to_string(),
        Option::Some(v) => format_count(v),
    }
}

} // verus!
