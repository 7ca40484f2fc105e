//! Text helpers for SVG documents: decimal digits and abbreviated counters.

use vstd::prelude::*;
use vstd::string::*;

verus! {

/// The digits used for decimal output.
pub const DIGITS: &'static str = "0123456789";

/// Character for a decimal digit `d` (`d < 10`).
pub open spec fn digit(d: nat) -> char {
    DIGITS@[d as int]
}

/// Decimal representation of `n`, most significant digit first, no leading zeros.
pub open spec fn decimal(n: nat) -> Seq<char>
    decreases n,
{
    if n < 10 {
        seq![digit(n)]
    } else {
        decimal(n / 10).push(digit(n % 10))
    }
}

/// Counts from this value on are written in thousands.
pub const THOUSANDS_THRESHOLD: u32 = 1000;

/// Counts from this value on are written in millions.
pub const MILLIONS_THRESHOLD: u32 = 1_000_000;

/// `value / unit` rounded to one decimal place (halves round up), followed by `suffix`.
pub open spec fn abbreviated(value: nat, unit: nat, suffix: char) -> Seq<char>
    recommends
        unit >= 10,
{
    let tenths = (value + unit / 20) / (unit / 10);
    decimal(tenths / 10).push('.').push(digit(tenths % 10)).push(suffix)
}

/// How a counter is shown: plain below a thousand, else in thousands ("1.5k")
/// below a million, else in millions ("1.5M"), with one decimal place.
pub open spec fn formatted_number(n: u32) -> Seq<char> {
    if n < THOUSANDS_THRESHOLD {
        decimal(n as nat)
    } else if n < MILLIONS_THRESHOLD {
        abbreviated(n as nat, 1000, 'k')
    } else {
        abbreviated(n as nat, 1_000_000, 'M')
    }
}

/// Decimal text is never longer than the number itself plus one.
pub proof fn lemma_decimal_len(n: nat)
    ensures
        1 <= decimal(n).len() <= n + 1,
    decreases n,
{
    if n >= 10 {
        lemma_decimal_len(n / 10);
    }
}

/// A formatted counter is at most four characters longer than the counter.
pub proof fn lemma_formatted_len(n: u32)
    ensures
        formatted_number(n).len() <= n + 4,
{
    lemma_decimal_len(n as nat);
    if n >= THOUSANDS_THRESHOLD {
        lemma_decimal_len(((n as nat + 50) / 100) / 10);
        lemma_decimal_len(((n as nat + 50000) / 100000) / 10);
    }
}

/// Appends `piece` to `out`.
fn push_piece(out: &mut String, piece: &str)
    ensures
        final(out)@ == old(out)@ + piece@,
{
    out.append(piece);
}

/// Appends the decimal digit `d`.
pub(crate) fn push_digit(out: &mut String, d: u128)
    requires
        d < 10,
    ensures
        final(out)@ == old(out)@.push(digit(d as nat)),
{
    proof {
        reveal_strlit("0123456789");
    }
    let piece = DIGITS.substring_char(d as usize, d as usize + 1);
    assert(piece@ =~= seq![digit(d as nat)]);
    push_piece(out, piece);
}

/// Appends the decimal representation of `n`.
pub(crate) fn push_decimal(out: &mut String, n: u128)
    ensures
        final(out)@ == old(out)@ + decimal(n as nat),
    decreases n,
{
    if n >= 10 {
        push_decimal(out, n / 10);
        push_digit(out, n % 10);
        assert(final(out)@ =~= old(out)@ + decimal(n as nat));
    } else {
        push_digit(out, n);
        assert(final(out)@ =~= old(out)@ + decimal(n as nat));
    }
}

/// Appends `value / unit` with one decimal place (halves round up) and `suffix`.
fn push_abbreviated(out: &mut String, value: u32, unit: u32, suffix: &str)
    requires
        unit == 1000 || unit == 1_000_000,
        suffix@.len() == 1,
    ensures
        final(out)@ == old(out)@ + abbreviated(value as nat, unit as nat, suffix@[0]),
{
    let tenths: u64 = (value as u64 + (unit / 20) as u64) / (unit / 10) as u64;
    push_decimal(out, (tenths / 10) as u128);
    push_piece(out, ".");
    push_digit(out, (tenths % 10) as u128);
    push_piece(out, suffix);
    proof {
        reveal_strlit(".");
    }
    assert(final(out)@ =~= old(out)@ + abbreviated(value as nat, unit as nat, suffix@[0]));
}

/// Formats a counter for display: "999", "1.0k", "1.5M".
pub fn format_number(n: u32) -> (r: String)
    ensures
        r@ == formatted_number(n),
{
    let mut out = String::new();
    if n < THOUSANDS_THRESHOLD {
        push_decimal(&mut out, n as u128);
    } else if n < MILLIONS_THRESHOLD {
        proof {
            reveal_strlit("k");
        }
        push_abbreviated(&mut out, n, 1000, "k");
    } else {
        proof {
            reveal_strlit("M");
        }
        push_abbreviated(&mut out, n, 1_000_000, "M");
    }
    out
}

} // verus!
