//! Telemetry formatting: renders a reading, supplied in tenths of a unit, as
//! a short ASCII decimal string with one fractional digit. The string is the
//! publish payload; it never exceeds 8 bytes for the admitted range.

use vstd::prelude::*;

verus! {

/// The decimal digits of `n`, most significant first, as ASCII bytes.
pub open spec fn dec_digits(n: nat) -> Seq<u8>
    decreases n,
{
    if n < 10 {
        seq![(48 + n) as u8]
    } else {
        dec_digits(n / 10) + seq![(48 + n % 10) as u8]
    }
}

/// A digit string has one digit per decimal order of magnitude.
pub proof fn lemma_dec_digits_len(n: nat)
    ensures
        1 <= dec_digits(n).len(),
        n < 10 ==> dec_digits(n).len() == 1,
        n < 100 ==> dec_digits(n).len() <= 2,
        n < 1000 ==> dec_digits(n).len() <= 3,
        n < 10000 ==> dec_digits(n).len() <= 4,
        n < 100000 ==> dec_digits(n).len() <= 5,
        n < 1000000 ==> dec_digits(n).len() <= 6,
    decreases n,
{
    if n >= 10 {
        lemma_dec_digits_len(n / 10);
    }
}

/// The formatted reading: an optional minus sign, the whole part's digits, a
/// dot, and the single tenths digit.
pub open spec fn spec_format_reading(tenths: int) -> Seq<u8> {
    let a = if tenths < 0 {
        -tenths
    } else {
        tenths
    };
    let sign: Seq<u8> = if tenths < 0 {
        seq![45u8]
    } else {
        Seq::empty()
    };
    sign + dec_digits((a / 10) as nat) + seq![46u8, (48 + a % 10) as u8]
}

/// Appends the decimal digits of `n` to `out`.
fn push_decimal(n: u32, out: &mut Vec<u8>)
    ensures
        final(out)@ == old(out)@ + dec_digits(n as nat),
    decreases n,
{
    if n < 10 {
        out.push(48 + n as u8);
        assert(out@ =~= old(out)@ + dec_digits(n as nat));
    } else {
        push_decimal(n / 10, out);
        out.push(48 + (n % 10) as u8);
        assert(out@ =~= old(out)@ + dec_digits(n as nat));
    }
}

/// Formats a reading given in tenths of a unit to one decimal place, e.g.
/// 235 tenths to "23.5". The admitted range keeps the result within the
/// 8-byte payload budget.
pub fn format_reading(tenths: i32) -> (r: Vec<u8>)
    requires
        -999999 <= tenths <= 9999999,
    ensures
        r@ == spec_format_reading(tenths as int),
        1 <= r@.len() <= 8,
{
    let mut out: Vec<u8> = Vec::new();
    let a: u32 = if tenths < 0 {
        out.push(45);
        (-tenths) as u32
    } else {
        tenths as u32
    };
    push_decimal(a / 10, &mut out);
    out.push(46);
    out.push(48 + (a % 10) as u8);
    proof {
        lemma_dec_digits_len((a / 10) as nat);
    }
    assert(out@ =~= spec_format_reading(tenths as int));
    out
}

} // verus!
