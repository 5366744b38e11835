use vstd::prelude::*;
use vstd::string::*;

verus! {

/// Fixed-point prices count this many units per whole currency unit.
pub const PRICE_SCALE: u64 = 10000;

/// The character of a decimal digit.
pub open spec fn digit_char(d: nat) -> char {
    if d == 0 { '0' }
    else if d == 1 { '1' }
    else if d == 2 { '2' }
    else if d == 3 { '3' }
    else if d == 4 { '4' }
    else if d == 5 { '5' }
    else if d == 6 { '6' }
    else if d == 7 { '7' }
    else if d == 8 { '8' }
    else { '9' }
}

/// The decimal notation of a natural number, without leading zeros.
pub open spec fn decimal(n: nat) -> Seq<char>
    decreases n,
{
    if n < 10 {
        seq![digit_char(n)]
    } else {
        decimal(n / 10).push(digit_char(n % 10))
    }
}

/// A count of hundredths written with two decimal places (`1234` is `12.34`).
pub open spec fn two_places(h: nat) -> Seq<char> {
    decimal(h / 100) + seq!['.', digit_char((h % 100) / 10), digit_char(h % 10)]
}

/// A fixed-point price rounded half up to hundredths.
pub open spec fn rounded_hundredths(v: nat) -> nat {
    (v + (PRICE_SCALE / 200) as nat) / ((PRICE_SCALE / 100) as nat)
}

/// A fixed-point price as text with two decimal places.
pub open spec fn price_text(v: nat) -> Seq<char> {
    two_places(rounded_hundredths(v))
}

/// The size of `(sma - current) / current * 100`, in hundredths of a percent,
/// rounded half away from zero. Only meaningful for a non-zero `current`.
pub open spec fn deviation_magnitude(current: nat, sma: nat) -> nat {
    let diff: nat = if sma >= current { (sma - current) as nat } else { (current - sma) as nat };
    (diff * 20000 + current) / (2 * current)
}

/// Whether the deviation is written with a minus sign.
pub open spec fn deviation_negative(current: nat, sma: nat) -> bool {
    sma < current && deviation_magnitude(current, sma) > 0
}

/// The percentage deviation of the average from the current price as text:
/// two decimal places, or `n/a` when the current price is zero.
pub open spec fn deviation_text(current: nat, sma: nat) -> Seq<char> {
    if current == 0 {
        seq!['n', '/', 'a']
    } else if deviation_negative(current, sma) {
        seq!['-'] + two_places(deviation_magnitude(current, sma))
    } else {
        two_places(deviation_magnitude(current, sma))
    }
}

fn digit_str(d: u128) -> (r: &'static str)
    requires
        d < 10,
    ensures
        r@ == seq![digit_char(d as nat)],
{
    proof {
        reveal_strlit("0");
        reveal_strlit("1");
        reveal_strlit("2");
        reveal_strlit("3");
        reveal_strlit("4");
        reveal_strlit("5");
        reveal_strlit("6");
        reveal_strlit("7");
        reveal_strlit("8");
        reveal_strlit("9");
    }
    if d == 0 { "0" }
    else if d == 1 { "1" }
    else if d == 2 { "2" }
    else if d == 3 { "3" }
    else if d == 4 { "4" }
    else if d == 5 { "5" }
    else if d == 6 { "6" }
    else if d == 7 { "7" }
    else if d == 8 { "8" }
    else { "9" }
}

/// Appends the decimal notation of `n` to `out`.
pub fn push_decimal(out: &mut String, n: u128)
    ensures
        final(out)@ == old(out)@ + decimal(n as nat),
    decreases n,
{
    if n >= 10 {
        push_decimal(out, n / 10);
    }
    let d = digit_str(n % 10);
    out.append(d);
    assert(out@ =~= old(out)@ + decimal(n as nat));
}

/// Appends a count of hundredths with two decimal places to `out`.
pub fn push_two_places(out: &mut String, h: u128)
    ensures
        final(out)@ == old(out)@ + two_places(h as nat),
{
    push_decimal(out, h / 100);
    proof { reveal_strlit("."); }
    out.append(".");
    out.append(digit_str((h % 100) / 10));
    out.append(digit_str(h % 10));
    assert(out@ =~= old(out)@ + two_places(h as nat));
}

/// Renders a fixed-point price with two decimal places, rounding half up.
pub fn format_price(v: u64) -> (r: String)
    ensures
        r@ == price_text(v as nat),
{
    let mut out = String::new();
    let h: u128 = (v as u128 + (PRICE_SCALE / 200) as u128) / ((PRICE_SCALE / 100) as u128);
    push_two_places(&mut out, h);
    assert(out@ =~= price_text(v as nat));
    out
}

/// Renders `(sma - current) / current * 100` with two decimal places, or
/// `n/a` when `current` is zero, so that the division never fails.
pub fn format_deviation(current: u64, sma: u64) -> (r: String)
    ensures
        r@ == deviation_text(current as nat, sma as nat),
{
    let mut out = String::new();
    if current == 0 {
        proof { reveal_strlit("n/a"); }
        out.append("n/a");
        assert(out@ =~= deviation_text(current as nat, sma as nat));
        return out;
    }
    let diff: u128 = if sma >= current { (sma - current) as u128 } else { (current - sma) as u128 };
    assert(diff * 20000 + current <= u128::MAX) by (nonlinear_arith)
        requires
            diff <= u64::MAX,
            current <= u64::MAX,
    ;
    let magnitude: u128 = (diff * 20000 + current as u128) / (2 * current as u128);
    if sma < current && magnitude > 0 {
        proof { reveal_strlit("-"); }
        out.append("-");
    }
    push_two_places(&mut out, magnitude);
    assert(out@ =~= deviation_text(current as nat, sma as nat));
    out
}

} // verus!
