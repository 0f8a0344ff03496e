//! Fixed-point arithmetic.
//!
//! Every quantity in the engine (stat, multiplier, damage value) is an
//! [`Fx`]: an `i64` carrying six decimal digits of fraction, so the raw
//! value `1_500_000` stands for one and a half.  All operations are
//! total: sums and products saturate at the `i64` range, and a division
//! whose divisor is zero yields zero.  Each executable operation is
//! specified exactly by the spec functions below, over mathematical
//! integers.

use vstd::prelude::*;

verus! {

/// Raw scale of an [`Fx`]: one unit is this many raw ticks.
pub const FX_SCALE: i64 = 1_000_000;

/// A fixed-point number: `v` raw ticks of one millionth each.
#[derive(Clone, Copy, Debug, Default, PartialEq, Eq, Structural)]
pub struct Fx {
    pub v: i64,
}

impl View for Fx {
    type V = int;

    open spec fn view(&self) -> int {
        self.v as int
    }
}

/// Clamp a mathematical integer into the `i64` range.
pub open spec fn sat64(x: int) -> int {
    if x > i64::MAX as int {
        i64::MAX as int
    } else if x < i64::MIN as int {
        i64::MIN as int
    } else {
        x
    }
}

pub open spec fn abs_int(x: int) -> int {
    if x < 0 {
        -x
    } else {
        x
    }
}

/// Division truncating toward zero, as machine division does.
pub open spec fn tdiv(a: int, b: int) -> int
    recommends
        b != 0,
{
    if (a < 0) == (b < 0) {
        abs_int(a) / abs_int(b)
    } else {
        -(abs_int(a) / abs_int(b))
    }
}

pub open spec fn fx_add_s(a: int, b: int) -> int {
    sat64(a + b)
}

pub open spec fn fx_sub_s(a: int, b: int) -> int {
    sat64(a - b)
}

pub open spec fn fx_mul_s(a: int, b: int) -> int {
    sat64(tdiv(a * b, FX_SCALE as int))
}

/// Fixed-point division; a zero divisor yields zero.
pub open spec fn fx_div_s(a: int, b: int) -> int {
    if b == 0 {
        0
    } else {
        sat64(tdiv(a * (FX_SCALE as int), b))
    }
}

pub open spec fn fx_clamp_s(x: int, lo: int, hi: int) -> int
    recommends
        lo <= hi,
{
    if x < lo {
        lo
    } else if x > hi {
        hi
    } else {
        x
    }
}

impl Fx {
    /// The number with the given raw tick count.
    pub fn from_raw(v: i64) -> (r: Fx)
        ensures
            r@ == v as int,
    {
        Fx { v }
    }

    /// The whole number `units`, saturating at the `i64` range.
    pub fn from_units(units: i64) -> (r: Fx)
        ensures
            r@ == sat64(units as int * (FX_SCALE as int)),
    {
        proof {
            assert(abs_int(units as int * (FX_SCALE as int)) <= 0x8000_0000_0000_0000 * 0x100000)
                by (nonlinear_arith)
                requires
                    abs_int(units as int) <= 0x8000_0000_0000_0000,
                    0 <= FX_SCALE as int <= 0x100000,
            ;
        }
        let p: i128 = units as i128 * (FX_SCALE as i128);
        Fx { v: clamp_i128(p) }
    }
}

/// Magnitude of an `i64`, exact even at the minimum value.
fn abs_u128_of_i64(x: i64) -> (r: u128)
    ensures
        r as int == abs_int(x as int),
{
    if x >= 0 {
        x as u128
    } else {
        (-(x as i128)) as u128
    }
}

/// Clamp an `i128` into `i64`.
fn clamp_i128(x: i128) -> (r: i64)
    ensures
        r as int == sat64(x as int),
{
    if x > i64::MAX as i128 {
        i64::MAX
    } else if x < i64::MIN as i128 {
        i64::MIN
    } else {
        x as i64
    }
}

/// The signed, clamped value of a magnitude and a sign flag.
fn signed_sat_i64(q: u128, neg: bool) -> (r: i64)
    ensures
        r as int == sat64(
            if neg {
                -(q as int)
            } else {
                q as int
            },
        ),
{
    if neg {
        if q >= 9_223_372_036_854_775_808u128 {
            i64::MIN
        } else {
            -(q as i64)
        }
    } else {
        if q > i64::MAX as u128 {
            i64::MAX
        } else {
            q as i64
        }
    }
}

proof fn lemma_abs_mul(a: int, b: int)
    ensures
        abs_int(a * b) == abs_int(a) * abs_int(b),
        (a < 0) != (b < 0) && a != 0 && b != 0 ==> a * b < 0,
        ((a < 0) == (b < 0)) ==> a * b >= 0,
{
    assert(abs_int(a * b) == abs_int(a) * abs_int(b)) by (nonlinear_arith);
    assert((a < 0) != (b < 0) && a != 0 && b != 0 ==> a * b < 0) by (nonlinear_arith);
    assert(((a < 0) == (b < 0)) ==> a * b >= 0) by (nonlinear_arith);
}

/// Saturating addition.
pub fn fx_add(a: Fx, b: Fx) -> (r: Fx)
    ensures
        r@ == fx_add_s(a@, b@),
{
    let s: i128 = a.v as i128 + b.v as i128;
    Fx { v: clamp_i128(s) }
}

/// Saturating subtraction.
pub fn fx_sub(a: Fx, b: Fx) -> (r: Fx)
    ensures
        r@ == fx_sub_s(a@, b@),
{
    let s: i128 = a.v as i128 - b.v as i128;
    Fx { v: clamp_i128(s) }
}

/// Saturating fixed-point product, truncating toward zero.
pub fn fx_mul(a: Fx, b: Fx) -> (r: Fx)
    ensures
        r@ == fx_mul_s(a@, b@),
{
    let neg: bool = (a.v < 0) != (b.v < 0);
    let pa: u128 = abs_u128_of_i64(a.v);
    let pb: u128 = abs_u128_of_i64(b.v);
    proof {
        lemma_abs_mul(a@, b@);
        assert(pa as int * (pb as int) <= 0x8000_0000_0000_0000 * 0x8000_0000_0000_0000)
            by (nonlinear_arith)
            requires
                pa as int <= 0x8000_0000_0000_0000,
                pb as int <= 0x8000_0000_0000_0000,
                pa as int >= 0,
                pb as int >= 0,
        ;
    }
    let q: u128 = (pa * pb) / (FX_SCALE as u128);
    Fx { v: signed_sat_i64(q, neg) }
}

/// Saturating fixed-point quotient, truncating toward zero; zero when
/// the divisor is zero.
pub fn fx_div(a: Fx, b: Fx) -> (r: Fx)
    ensures
        r@ == fx_div_s(a@, b@),
{
    if b.v == 0 {
        return Fx { v: 0 };
    }
    let neg: bool = (a.v < 0) != (b.v < 0);
    let pa: u128 = abs_u128_of_i64(a.v);
    let pb: u128 = abs_u128_of_i64(b.v);
    proof {
        lemma_abs_mul(a@, FX_SCALE as int);
        assert(pa as int * (FX_SCALE as int) <= 0x8000_0000_0000_0000 * 0x100000)
            by (nonlinear_arith)
            requires
                pa as int <= 0x8000_0000_0000_0000,
                pa as int >= 0,
                FX_SCALE as int <= 0x100000,
        ;
    }
    let q: u128 = (pa * (FX_SCALE as u128)) / pb;
    Fx { v: signed_sat_i64(q, neg) }
}

/// Clamp into an inclusive range.
pub fn fx_clamp(x: Fx, lo: Fx, hi: Fx) -> (r: Fx)
    requires
        lo@ <= hi@,
    ensures
        r@ == fx_clamp_s(x@, lo@, hi@),
{
    if x.v < lo.v {
        lo
    } else if x.v > hi.v {
        hi
    } else {
        x
    }
}

pub fn fx_le(a: Fx, b: Fx) -> (r: bool)
    ensures
        r == (a@ <= b@),
{
    a.v <= b.v
}

pub fn fx_lt(a: Fx, b: Fx) -> (r: bool)
    ensures
        r == (a@ < b@),
{
    a.v < b.v
}

/// The character for one decimal digit.
pub open spec fn digit_char(d: int) -> char {
    if d == 0 {
        '0'
    } else if d == 1 {
        '1'
    } else if d == 2 {
        '2'
    } else if d == 3 {
        '3'
    } else if d == 4 {
        '4'
    } else if d == 5 {
        '5'
    } else if d == 6 {
        '6'
    } else if d == 7 {
        '7'
    } else if d == 8 {
        '8'
    } else {
        '9'
    }
}

/// The decimal digits of a natural number, most significant first.
pub open spec fn dec_digits(n: nat) -> Seq<char>
    decreases n,
{
    if n < 10 {
        seq![digit_char(n as int)]
    } else {
        dec_digits(n / 10).push(digit_char((n % 10) as int))
    }
}

/// Exactly six digits for a fraction of one unit, most significant first.
pub open spec fn frac6(n: nat) -> Seq<char>
    recommends
        n < FX_SCALE as nat,
{
    seq![
        digit_char(((n / 100_000) % 10) as int),
        digit_char(((n / 10_000) % 10) as int),
        digit_char(((n / 1_000) % 10) as int),
        digit_char(((n / 100) % 10) as int),
        digit_char(((n / 10) % 10) as int),
        digit_char((n % 10) as int),
    ]
}

/// Decimal text of a nonnegative raw tick count: whole part, a point,
/// six fraction digits.
pub open spec fn mag_chars(m: nat) -> Seq<char> {
    dec_digits(m / (FX_SCALE as nat)) + seq!['.'] + frac6(m % (FX_SCALE as nat))
}

/// Decimal text of a fixed-point value.
pub open spec fn fx_chars(x: int) -> Seq<char> {
    if x < 0 {
        seq!['-'] + mag_chars((-x) as nat)
    } else {
        mag_chars(x as nat)
    }
}

fn digit_char_x(d: u64) -> (c: char)
    requires
        d < 10,
    ensures
        c == digit_char(d as int),
{
    match d {
        0 => '0',
        1 => '1',
        2 => '2',
        3 => '3',
        4 => '4',
        5 => '5',
        6 => '6',
        7 => '7',
        8 => '8',
        _ => '9',
    }
}

fn push_digits(n: u64, out: &mut Vec<char>)
    ensures
        final(out)@ == old(out)@ + dec_digits(n as nat),
    decreases n,
{
    if n < 10 {
        out.push(digit_char_x(n));
    } else {
        push_digits(n / 10, out);
        out.push(digit_char_x(n % 10));
    }
}

/// Render a fixed-point value as decimal text.
pub fn fx_to_chars(x: Fx) -> (r: Vec<char>)
    ensures
        r@ == fx_chars(x@),
{
    let mut out: Vec<char> = Vec::new();
    if x.v < 0 {
        out.push('-');
    }
    let m128: u128 = abs_u128_of_i64(x.v);
    let m: u64 = m128 as u64;
    let whole: u64 = m / (FX_SCALE as u64);
    let frac: u64 = m % (FX_SCALE as u64);
    push_digits(whole, &mut out);
    out.push('.');
    out.push(digit_char_x((frac / 100_000) % 10));
    out.push(digit_char_x((frac / 10_000) % 10));
    out.push(digit_char_x((frac / 1_000) % 10));
    out.push(digit_char_x((frac / 100) % 10));
    out.push(digit_char_x((frac / 10) % 10));
    out.push(digit_char_x(frac % 10));
    proof {
        assert(out@ =~= fx_chars(x@));
    }
    out
}

} // verus!
