use damage_eval::expr::{eval_formula_chars, parse_decimal_chars};
use damage_eval::fx::{fx_add, fx_div, fx_mul, fx_sub, fx_to_chars, Fx, FX_SCALE};
use damage_eval::text::str_to_chars;

fn fx(v: i64) -> Fx {
    Fx { v }
}

fn units(u: i64) -> Fx {
    Fx { v: u * FX_SCALE }
}

fn eval(s: &str) -> Fx {
    eval_formula_chars(&str_to_chars(s))
}

#[test]
fn addition_and_subtraction_are_exact_in_range() {
    assert_eq!(fx_add(units(2), units(3)).v, 5 * FX_SCALE);
    assert_eq!(fx_sub(units(2), units(3)).v, -FX_SCALE);
}

#[test]
fn addition_saturates_at_the_extremes() {
    assert_eq!(fx_add(fx(i64::MAX), fx(1)).v, i64::MAX);
    assert_eq!(fx_sub(fx(i64::MIN), fx(1)).v, i64::MIN);
}

#[test]
fn multiplication_scales_and_truncates_toward_zero() {
    assert_eq!(fx_mul(units(3), units(4)).v, 12 * FX_SCALE);
    // 1/3 of one unit times three: 333333 * 3 = 999999 raw ticks.
    assert_eq!(fx_mul(fx(333_333), units(3)).v, 999_999);
    // negative product truncates toward zero, not downward
    assert_eq!(fx_mul(fx(-1), fx(1)).v, 0);
}

#[test]
fn division_truncates_and_divides_by_zero_to_zero() {
    assert_eq!(fx_div(units(1), units(3)).v, 333_333);
    assert_eq!(fx_div(units(-1), units(3)).v, -333_333);
    assert_eq!(fx_div(units(5), fx(0)).v, 0);
}

#[test]
fn rendering_writes_six_fraction_digits() {
    let s: String = fx_to_chars(fx(1_500_000)).into_iter().collect();
    assert_eq!(s, "1.500000");
    let s: String = fx_to_chars(fx(-500_000)).into_iter().collect();
    assert_eq!(s, "-0.500000");
    let s: String = fx_to_chars(fx(0)).into_iter().collect();
    assert_eq!(s, "0.000000");
    let s: String = fx_to_chars(units(12345)).into_iter().collect();
    assert_eq!(s, "12345.000000");
}

#[test]
fn formulas_follow_precedence() {
    assert_eq!(eval("1+2*3").v, 7 * FX_SCALE);
    assert_eq!(eval("(1+2)*3").v, 9 * FX_SCALE);
    assert_eq!(eval(" 2 * 0.5 ").v, FX_SCALE);
    assert_eq!(eval("10/4").v, 2_500_000);
    assert_eq!(eval("-3+5").v, 2 * FX_SCALE);
    assert_eq!(eval("--2").v, 2 * FX_SCALE);
    assert_eq!(eval("100/(100+80)").v, 555_555);
}

#[test]
fn formula_literals_carry_fractions() {
    assert_eq!(eval("0.7025").v, 702_500);
    assert_eq!(eval("50").v, 50 * FX_SCALE);
    assert_eq!(eval("1.5*2").v, 3 * FX_SCALE);
}

#[test]
fn malformed_formulas_evaluate_to_zero() {
    assert_eq!(eval("1+*2").v, 0);
    assert_eq!(eval("abc").v, 0);
    assert_eq!(eval("(1+2").v, 0);
    assert_eq!(eval("").v, 0);
    assert_eq!(eval("1 2").v, 0);
    assert_eq!(eval("1/0").v, 0);
    // an oversized literal is rejected, not wrapped
    assert_eq!(eval("99999999999999").v, 0);
}

#[test]
fn plain_decimals_parse_with_sign() {
    assert_eq!(parse_decimal_chars(&str_to_chars("12.5")).v, 12_500_000);
    assert_eq!(parse_decimal_chars(&str_to_chars("-3")).v, -3_000_000);
    assert_eq!(parse_decimal_chars(&str_to_chars("x12")).v, 0);
}
