//! Verified string building: decimal renderings of the small integers that
//! appear in event text, and appending of single characters.
use vstd::prelude::*;

verus! {

/// The decimal digit character for a value below ten.
pub open spec fn spec_digit(d: int) -> char
    recommends
        0 <= d < 10,
{
    ((48 + d) as u8) as char
}

/// The decimal rendering of a non-negative integer, most significant
/// digit first.
pub open spec fn spec_decimal(n: int) -> Seq<char>
    recommends
        n >= 0,
    decreases n,
{
    if n < 10 {
        seq![spec_digit(n)]
    } else {
        spec_decimal(n / 10).push(spec_digit(n % 10))
    }
}

/// Relies on std's `String::push`: appends the given character to the end
/// of the string.
#[verifier::external_body]
pub fn push_char(s: &mut String, c: char)
    ensures
        final(s)@ == old(s)@.push(c),
{
    s.push(c);
}

fn digit_char(d: u8) -> (r: char)
    requires
        d < 10,
    ensures
        r == spec_digit(d as int),
{
    (48 + d) as char
}

/// Append the decimal rendering of `n` to `s`.
pub fn push_decimal_u64(s: &mut String, n: u64)
    ensures
        final(s)@ == old(s)@ + spec_decimal(n as int),
    decreases n,
{
    if n < 10 {
        let d = digit_char(n as u8);
        push_char(s, d);
        assert(old(s)@ + spec_decimal(n as int) =~= old(s)@.push(spec_digit(n as int)));
    } else {
        push_decimal_u64(s, n / 10);
        let d = digit_char((n % 10) as u8);
        push_char(s, d);
        assert(old(s)@ + spec_decimal(n as int) =~= (old(s)@ + spec_decimal(n as int / 10)).push(
            spec_digit(n as int % 10),
        ));
    }
}

/// The textual form of a boolean, as it appears in rendered events.
pub open spec fn spec_bool_str(b: bool) -> Seq<char> {
    if b {
        "true"@
    } else {
        "false"@
    }
}

/// Append "true" or "false" to `s`.
pub fn push_bool(s: &mut String, b: bool)
    ensures
        final(s)@ == old(s)@ + spec_bool_str(b),
{
    if b {
        s.append("true");
    } else {
        s.append("false");
    }
}

} // verus!
