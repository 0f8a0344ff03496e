//! Formula evaluation.
//!
//! Catalog formulas are human-authored arithmetic over named bindings;
//! after substitution (see [`crate::text`]) they are plain arithmetic
//! text.  The grammar accepted here is sums and differences of products
//! and quotients of factors, where a factor is a decimal literal, a
//! negated factor or a parenthesised expression; spaces may stand
//! between tokens.  A formula that does not fit the grammar, or that
//! holds an oversized literal, evaluates to zero — a malformed catalog
//! entry must never fail a request.
//!
//! The evaluator is written twice, once as spec functions and once as
//! executable ones, with the contract that both agree exactly.  Parsing
//! is bounded by a fuel count so that both sides are total; the fuel is
//! generous enough for any formula whose nesting fits in memory.

use crate::fx::{fx_add, fx_add_s, fx_div, fx_div_s, fx_mul, fx_mul_s, fx_sub, fx_sub_s, sat64, Fx,
    FX_SCALE};
use vstd::prelude::*;

verus! {

/// Largest whole-unit literal a formula may carry.
pub const LIT_CAP: u64 = 9_000_000_000_000;

pub open spec fn is_digit(c: char) -> bool {
    '0' <= c && c <= '9'
}

/// Numeric value of a digit character.
pub open spec fn digit_val(c: char) -> int {
    if c == '0' {
        0
    } else if c == '1' {
        1
    } else if c == '2' {
        2
    } else if c == '3' {
        3
    } else if c == '4' {
        4
    } else if c == '5' {
        5
    } else if c == '6' {
        6
    } else if c == '7' {
        7
    } else if c == '8' {
        8
    } else {
        9
    }
}

fn digit_val_x(c: char) -> (d: u64)
    requires
        is_digit(c),
    ensures
        d as int == digit_val(c),
        d < 10,
{
    match c {
        '0' => 0,
        '1' => 1,
        '2' => 2,
        '3' => 3,
        '4' => 4,
        '5' => 5,
        '6' => 6,
        '7' => 7,
        '8' => 8,
        _ => 9,
    }
}

/// First position at or after `i` that does not hold a space.
pub open spec fn skip_ws_s(s: Seq<char>, i: int) -> int
    decreases s.len() - i,
{
    if 0 <= i < s.len() && s[i] == ' ' {
        skip_ws_s(s, i + 1)
    } else {
        i
    }
}

fn skip_ws(s: &Vec<char>, i: usize) -> (j: usize)
    requires
        i <= s@.len(),
    ensures
        j as int == skip_ws_s(s@, i as int),
        i <= j <= s@.len(),
    decreases s@.len() - i,
{
    if i < s.len() && s[i] == ' ' {
        skip_ws(s, i + 1)
    } else {
        i
    }
}

/// A parse step: the raw value read and the next position; `None` when
/// the text is rejected.
pub open spec fn step_matches(r: Option<(i64, usize)>, s: Option<(int, int)>, len: int) -> bool {
    match (r, s) {
        (Option::Some(rp), Option::Some(sp)) => {
            &&& rp.0 as int == sp.0
            &&& rp.1 as int == sp.1
            &&& rp.1 as int <= len
        },
        (Option::None, Option::None) => true,
        _ => false,
    }
}

/// Accumulate decimal digits into a whole-unit count, rejecting a
/// count beyond [`LIT_CAP`].
pub open spec fn scan_units_s(s: Seq<char>, i: int, acc: int) -> Option<(int, int)>
    decreases s.len() - i,
{
    if 0 <= i < s.len() && is_digit(s[i]) {
        let acc2 = acc * 10 + digit_val(s[i]);
        if acc2 > LIT_CAP as int {
            Option::None
        } else {
            scan_units_s(s, i + 1, acc2)
        }
    } else {
        Option::Some((acc, i))
    }
}

fn scan_units(s: &Vec<char>, i: usize, acc: u64) -> (r: Option<(u64, usize)>)
    requires
        i <= s@.len(),
        acc <= LIT_CAP,
    ensures
        match (r, scan_units_s(s@, i as int, acc as int)) {
            (Option::Some(rp), Option::Some(sp)) => {
                rp.0 as int == sp.0 && rp.1 as int == sp.1 && rp.1 <= s@.len() && rp.0 <= LIT_CAP
            },
            (Option::None, Option::None) => true,
            _ => false,
        },
    decreases s@.len() - i,
{
    if i < s.len() && ('0' <= s[i] && s[i] <= '9') {
        let d: u64 = digit_val_x(s[i]);
        let acc2: u64 = acc * 10 + d;
        if acc2 > LIT_CAP {
            Option::None
        } else {
            scan_units(s, i + 1, acc2)
        }
    } else {
        Option::Some((acc, i))
    }
}

/// Accumulate fraction digits: each digit adds `digit * mult` raw
/// ticks, and `mult` shrinks tenfold; digits past the sixth are read
/// and ignored.
pub open spec fn scan_frac_s(s: Seq<char>, i: int, acc: int, mult: int) -> (int, int)
    decreases s.len() - i,
{
    if 0 <= i < s.len() && is_digit(s[i]) {
        scan_frac_s(s, i + 1, acc + digit_val(s[i]) * mult, mult / 10)
    } else {
        (acc, i)
    }
}

fn scan_frac(s: &Vec<char>, i: usize, acc: u64, mult: u64) -> (r: (u64, usize))
    requires
        i <= s@.len(),
        mult <= 100_000,
        acc + mult * 10 <= FX_SCALE as u64,
        acc < FX_SCALE as u64,
    ensures
        r.0 as int == scan_frac_s(s@, i as int, acc as int, mult as int).0,
        r.1 as int == scan_frac_s(s@, i as int, acc as int, mult as int).1,
        r.1 <= s@.len(),
        r.0 < FX_SCALE as u64,
    decreases s@.len() - i,
{
    if i < s.len() && ('0' <= s[i] && s[i] <= '9') {
        let d: u64 = digit_val_x(s[i]);
        proof {
            assert(d * mult <= 9 * mult) by (nonlinear_arith)
                requires
                    d <= 9,
                    mult >= 0,
            ;
        }
        scan_frac(s, i + 1, acc + d * mult, mult / 10)
    } else {
        (acc, i)
    }
}

/// A decimal literal: digits, then optionally a point followed by at
/// least one digit.
pub open spec fn parse_number_s(s: Seq<char>, i: int) -> Option<(int, int)>
    decreases s.len() - i,
{
    if 0 <= i < s.len() && is_digit(s[i]) {
        match scan_units_s(s, i, 0) {
            Option::Some(up) => {
                let ticks = up.0 * (FX_SCALE as int);
                if up.1 + 1 < s.len() && s[up.1] == '.' && is_digit(s[up.1 + 1]) {
                    let fp = scan_frac_s(s, up.1 + 1, 0, 100_000);
                    Option::Some((ticks + fp.0, fp.1))
                } else {
                    Option::Some((ticks, up.1))
                }
            },
            Option::None => Option::None,
        }
    } else {
        Option::None
    }
}

fn parse_number(s: &Vec<char>, i: usize) -> (r: Option<(i64, usize)>)
    requires
        i <= s@.len(),
    ensures
        step_matches(r, parse_number_s(s@, i as int), s@.len() as int),
    decreases s@.len() - i,
{
    if i < s.len() && ('0' <= s[i] && s[i] <= '9') {
        match scan_units(s, i, 0) {
            Option::Some((units, j)) => {
                let ticks: i64 = (units as i64) * FX_SCALE;
                if j < s.len() && s[j] == '.' && j + 1 < s.len() && ('0' <= s[j + 1] && s[j + 1]
                    <= '9') {
                    let (frac, k) = scan_frac(s, j + 1, 0, 100_000);
                    Option::Some((ticks + frac as i64, k))
                } else {
                    Option::Some((ticks, j))
                }
            },
            Option::None => Option::None,
        }
    } else {
        Option::None
    }
}

/// A factor: a literal, a negated factor or a parenthesised expression.
pub open spec fn parse_factor_s(s: Seq<char>, i: int, fuel: nat) -> Option<(int, int)>
    decreases fuel,
{
    if fuel == 0 {
        Option::None
    } else {
        let j = skip_ws_s(s, i);
        if j < s.len() && s[j] == '-' {
            match parse_factor_s(s, j + 1, (fuel - 1) as nat) {
                Option::Some(p) => Option::Some((sat64(0 - p.0), p.1)),
                Option::None => Option::None,
            }
        } else if j < s.len() && s[j] == '(' {
            match parse_expr_s(s, j + 1, (fuel - 1) as nat) {
                Option::Some(p) => {
                    let m = skip_ws_s(s, p.1);
                    if m < s.len() && s[m] == ')' {
                        Option::Some((p.0, m + 1))
                    } else {
                        Option::None
                    }
                },
                Option::None => Option::None,
            }
        } else if j < s.len() && is_digit(s[j]) {
            parse_number_s(s, j)
        } else {
            Option::None
        }
    }
}

/// A term: a factor, then any run of `*` or `/` factors, applied left
/// to right with fixed-point product and quotient.
pub open spec fn parse_term_s(s: Seq<char>, i: int, fuel: nat) -> Option<(int, int)>
    decreases fuel,
{
    if fuel == 0 {
        Option::None
    } else {
        match parse_factor_s(s, i, (fuel - 1) as nat) {
            Option::Some(p) => parse_term_rest_s(s, p.0, p.1, (fuel - 1) as nat),
            Option::None => Option::None,
        }
    }
}

pub open spec fn parse_term_rest_s(s: Seq<char>, acc: int, i: int, fuel: nat) -> Option<(int, int)>
    decreases fuel,
{
    if fuel == 0 {
        Option::None
    } else {
        let j = skip_ws_s(s, i);
        if j < s.len() && (s[j] == '*' || s[j] == '/') {
            match parse_factor_s(s, j + 1, (fuel - 1) as nat) {
                Option::Some(p) => {
                    let acc2 = if s[j] == '*' {
                        fx_mul_s(acc, p.0)
                    } else {
                        fx_div_s(acc, p.0)
                    };
                    parse_term_rest_s(s, acc2, p.1, (fuel - 1) as nat)
                },
                Option::None => Option::None,
            }
        } else {
            Option::Some((acc, j))
        }
    }
}

/// An expression: a term, then any run of `+` or `-` terms, applied
/// left to right with saturating sum and difference.
pub open spec fn parse_expr_s(s: Seq<char>, i: int, fuel: nat) -> Option<(int, int)>
    decreases fuel,
{
    if fuel == 0 {
        Option::None
    } else {
        match parse_term_s(s, i, (fuel - 1) as nat) {
            Option::Some(p) => parse_expr_rest_s(s, p.0, p.1, (fuel - 1) as nat),
            Option::None => Option::None,
        }
    }
}

pub open spec fn parse_expr_rest_s(s: Seq<char>, acc: int, i: int, fuel: nat) -> Option<(int, int)>
    decreases fuel,
{
    if fuel == 0 {
        Option::None
    } else {
        let j = skip_ws_s(s, i);
        if j < s.len() && (s[j] == '+' || s[j] == '-') {
            match parse_term_s(s, j + 1, (fuel - 1) as nat) {
                Option::Some(p) => {
                    let acc2 = if s[j] == '+' {
                        fx_add_s(acc, p.0)
                    } else {
                        fx_sub_s(acc, p.0)
                    };
                    parse_expr_rest_s(s, acc2, p.1, (fuel - 1) as nat)
                },
                Option::None => Option::None,
            }
        } else {
            Option::Some((acc, j))
        }
    }
}

fn parse_factor(s: &Vec<char>, i: usize, fuel: u128) -> (r: Option<(i64, usize)>)
    requires
        i <= s@.len(),
    ensures
        step_matches(r, parse_factor_s(s@, i as int, fuel as nat), s@.len() as int),
    decreases fuel,
{
    if fuel == 0 {
        Option::None
    } else {
        let j = skip_ws(s, i);
        if j < s.len() && s[j] == '-' {
            match parse_factor(s, j + 1, fuel - 1) {
                Option::Some((v, k)) => Option::Some((fx_sub(Fx { v: 0 }, Fx { v }).v, k)),
                Option::None => Option::None,
            }
        } else if j < s.len() && s[j] == '(' {
            match parse_expr(s, j + 1, fuel - 1) {
                Option::Some((v, k)) => {
                    let m = skip_ws(s, k);
                    if m < s.len() && s[m] == ')' {
                        Option::Some((v, m + 1))
                    } else {
                        Option::None
                    }
                },
                Option::None => Option::None,
            }
        } else if j < s.len() && ('0' <= s[j] && s[j] <= '9') {
            parse_number(s, j)
        } else {
            Option::None
        }
    }
}

fn parse_term(s: &Vec<char>, i: usize, fuel: u128) -> (r: Option<(i64, usize)>)
    requires
        i <= s@.len(),
    ensures
        step_matches(r, parse_term_s(s@, i as int, fuel as nat), s@.len() as int),
    decreases fuel,
{
    if fuel == 0 {
        Option::None
    } else {
        match parse_factor(s, i, fuel - 1) {
            Option::Some((v, j)) => parse_term_rest(s, v, j, fuel - 1),
            Option::None => Option::None,
        }
    }
}

fn parse_term_rest(s: &Vec<char>, acc: i64, i: usize, fuel: u128) -> (r: Option<(i64, usize)>)
    requires
        i <= s@.len(),
    ensures
        step_matches(r, parse_term_rest_s(s@, acc as int, i as int, fuel as nat), s@.len() as int),
    decreases fuel,
{
    if fuel == 0 {
        Option::None
    } else {
        let j = skip_ws(s, i);
        if j < s.len() && (s[j] == '*' || s[j] == '/') {
            match parse_factor(s, j + 1, fuel - 1) {
                Option::Some((v, k)) => {
                    let acc2: i64 = if s[j] == '*' {
                        fx_mul(Fx { v: acc }, Fx { v }).v
                    } else {
                        fx_div(Fx { v: acc }, Fx { v }).v
                    };
                    parse_term_rest(s, acc2, k, fuel - 1)
                },
                Option::None => Option::None,
            }
        } else {
            Option::Some((acc, j))
        }
    }
}

fn parse_expr(s: &Vec<char>, i: usize, fuel: u128) -> (r: Option<(i64, usize)>)
    requires
        i <= s@.len(),
    ensures
        step_matches(r, parse_expr_s(s@, i as int, fuel as nat), s@.len() as int),
    decreases fuel,
{
    if fuel == 0 {
        Option::None
    } else {
        match parse_term(s, i, fuel - 1) {
            Option::Some((v, j)) => parse_expr_rest(s, v, j, fuel - 1),
            Option::None => Option::None,
        }
    }
}

fn parse_expr_rest(s: &Vec<char>, acc: i64, i: usize, fuel: u128) -> (r: Option<(i64, usize)>)
    requires
        i <= s@.len(),
    ensures
        step_matches(r, parse_expr_rest_s(s@, acc as int, i as int, fuel as nat), s@.len() as int),
    decreases fuel,
{
    if fuel == 0 {
        Option::None
    } else {
        let j = skip_ws(s, i);
        if j < s.len() && (s[j] == '+' || s[j] == '-') {
            match parse_term(s, j + 1, fuel - 1) {
                Option::Some((v, k)) => {
                    let acc2: i64 = if s[j] == '+' {
                        fx_add(Fx { v: acc }, Fx { v }).v
                    } else {
                        fx_sub(Fx { v: acc }, Fx { v }).v
                    };
                    parse_expr_rest(s, acc2, k, fuel - 1)
                },
                Option::None => Option::None,
            }
        } else {
            Option::Some((acc, j))
        }
    }
}

/// The value of a plain decimal, with an optional leading minus; text
/// that is not wholly a decimal yields zero.
pub open spec fn parse_decimal_s(s: Seq<char>) -> int {
    if s.len() > 0 && s[0] == '-' {
        match parse_number_s(s, 1) {
            Option::Some(p) => {
                if p.1 == s.len() {
                    sat64(0 - p.0)
                } else {
                    0
                }
            },
            Option::None => 0,
        }
    } else {
        match parse_number_s(s, 0) {
            Option::Some(p) => {
                if p.1 == s.len() {
                    p.0
                } else {
                    0
                }
            },
            Option::None => 0,
        }
    }
}

/// Parse a plain decimal, with an optional leading minus; text that is
/// not wholly a decimal yields zero.
pub fn parse_decimal_chars(s: &Vec<char>) -> (r: Fx)
    ensures
        r@ == parse_decimal_s(s@),
{
    if s.len() > 0 && s[0] == '-' {
        match parse_number(s, 1) {
            Option::Some((v, j)) => {
                if j == s.len() {
                    fx_sub(Fx { v: 0 }, Fx { v })
                } else {
                    Fx { v: 0 }
                }
            },
            Option::None => Fx { v: 0 },
        }
    } else {
        match parse_number(s, 0) {
            Option::Some((v, j)) => {
                if j == s.len() {
                    Fx { v }
                } else {
                    Fx { v: 0 }
                }
            },
            Option::None => Fx { v: 0 },
        }
    }
}

/// Fuel that covers any formula: each grammar level consumes at most
/// three units before consuming a character.
pub open spec fn eval_fuel(len: nat) -> nat {
    3 * len + 16
}

/// The value of a formula: the parsed expression's value when the whole
/// text (up to trailing spaces) fits the grammar, and zero otherwise.
pub open spec fn eval_formula_s(s: Seq<char>) -> int {
    match parse_expr_s(s, 0, eval_fuel(s.len())) {
        Option::Some(p) => {
            if skip_ws_s(s, p.1) == s.len() {
                p.0
            } else {
                0
            }
        },
        Option::None => 0,
    }
}

/// Evaluate a formula; text that does not fit the grammar yields zero.
pub fn eval_formula_chars(s: &Vec<char>) -> (r: Fx)
    ensures
        r@ == eval_formula_s(s@),
{
    let fuel: u128 = 3 * (s.len() as u128) + 16;
    match parse_expr(s, 0, fuel) {
        Option::Some((v, j)) => {
            let m = skip_ws(s, j);
            if m == s.len() {
                Fx { v }
            } else {
                Fx { v: 0 }
            }
        },
        Option::None => Fx { v: 0 },
    }
}

} // verus!
