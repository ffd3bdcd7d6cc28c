//! Tests of the waveform expression parser.

use soundgen::ast::Expr;
use soundgen::ast::Number;
use soundgen::parse::parse_text;
use soundgen::parse::parse_wave;

fn int_num(neg: bool, digits: Vec<u8>) -> Number {
    Number { neg, int_digits: digits, frac_digits: Vec::new() }
}

fn frac_num(neg: bool, int_digits: Vec<u8>, frac_digits: Vec<u8>) -> Number {
    Number { neg, int_digits, frac_digits }
}

fn num_expr(neg: bool, digits: Vec<u8>) -> Expr {
    Expr::Num(int_num(neg, digits))
}

#[test]
fn parse_sine_constant() {
    let r = parse_wave(b"sine(440)");
    assert_eq!(r, Some(Expr::Sine(Box::new(num_expr(false, vec![4, 4, 0])))));
}

#[test]
fn parse_unbalanced_fails() {
    assert_eq!(parse_wave(b"sine(440"), None);
}

#[test]
fn parse_looped_sine() {
    let r = parse_wave(b"sine(440).looped()");
    assert_eq!(
        r,
        Some(Expr::Looped(Box::new(Expr::Sine(Box::new(num_expr(
            false,
            vec![4, 4, 0]
        ))))))
    );
}

#[test]
fn parse_bare_number() {
    assert_eq!(parse_wave(b"42"), Some(num_expr(false, vec![4, 2])));
    assert_eq!(parse_wave(b"007"), Some(num_expr(false, vec![0, 0, 7])));
}

#[test]
fn parse_negative_fraction() {
    assert_eq!(
        parse_wave(b"-3.25"),
        Some(Expr::Num(frac_num(true, vec![3], vec![2, 5])))
    );
    assert_eq!(
        parse_wave(b"0.5"),
        Some(Expr::Num(frac_num(false, vec![0], vec![5])))
    );
}

#[test]
fn parse_bad_numbers_fail() {
    assert_eq!(parse_wave(b""), None);
    assert_eq!(parse_wave(b"-"), None);
    assert_eq!(parse_wave(b"3."), None);
    assert_eq!(parse_wave(b".5"), None);
    assert_eq!(parse_wave(b"+3"), None);
    assert_eq!(parse_wave(b"1e3"), None);
}

#[test]
fn parse_add_base() {
    assert_eq!(
        parse_wave(b"add(1,2)"),
        Some(Expr::Sum(
            Box::new(num_expr(false, vec![1])),
            Box::new(num_expr(false, vec![2]))
        ))
    );
}

#[test]
fn parse_mul_base() {
    assert_eq!(
        parse_wave(b"mul(2,3)"),
        Some(Expr::Product(
            Box::new(num_expr(false, vec![2])),
            Box::new(num_expr(false, vec![3]))
        ))
    );
}

#[test]
fn parse_pulse_base() {
    assert_eq!(
        parse_wave(b"pulse(440,0.5)"),
        Some(Expr::Pulse(
            Box::new(num_expr(false, vec![4, 4, 0])),
            Box::new(Expr::Num(frac_num(false, vec![0], vec![5])))
        ))
    );
}

#[test]
fn parse_triangle_base() {
    assert_eq!(
        parse_wave(b"triangle(1,0.8)"),
        Some(Expr::Triangle(
            Box::new(num_expr(false, vec![1])),
            Box::new(Expr::Num(frac_num(false, vec![0], vec![8])))
        ))
    );
}

#[test]
fn parse_noise_base() {
    assert_eq!(
        parse_wave(b"noise(100)"),
        Some(Expr::Noise(Box::new(num_expr(false, vec![1, 0, 0]))))
    );
}

#[test]
fn parse_slide_base() {
    assert_eq!(
        parse_wave(b"slide(1,-2,3.5)"),
        Some(Expr::Slide(
            int_num(false, vec![1]),
            int_num(true, vec![2]),
            frac_num(false, vec![3], vec![5])
        ))
    );
}

#[test]
fn parse_add_suffix() {
    assert_eq!(
        parse_wave(b"1.add(2)"),
        Some(Expr::Sum(
            Box::new(num_expr(false, vec![1])),
            Box::new(num_expr(false, vec![2]))
        ))
    );
}

#[test]
fn parse_mul_suffix() {
    assert_eq!(
        parse_wave(b"sine(440).mul(2)"),
        Some(Expr::Product(
            Box::new(Expr::Sine(Box::new(num_expr(false, vec![4, 4, 0])))),
            Box::new(num_expr(false, vec![2]))
        ))
    );
}

#[test]
fn parse_delayed_suffix() {
    assert_eq!(
        parse_wave(b"2.delayed(0.5)"),
        Some(Expr::Delayed(
            Box::new(num_expr(false, vec![2])),
            frac_num(false, vec![0], vec![5])
        ))
    );
}

#[test]
fn parse_adshr_suffix() {
    assert_eq!(
        parse_wave(b"sine(220).adshr(0.1,0.2,0.5,0.3,0.4)"),
        Some(Expr::Adshr(
            Box::new(Expr::Sine(Box::new(num_expr(false, vec![2, 2, 0])))),
            frac_num(false, vec![0], vec![1]),
            frac_num(false, vec![0], vec![2]),
            frac_num(false, vec![0], vec![5]),
            frac_num(false, vec![0], vec![3]),
            frac_num(false, vec![0], vec![4])
        ))
    );
}

#[test]
fn parse_suffixes_fold_left() {
    assert_eq!(
        parse_wave(b"1.add(2).mul(3)"),
        Some(Expr::Product(
            Box::new(Expr::Sum(
                Box::new(num_expr(false, vec![1])),
                Box::new(num_expr(false, vec![2]))
            )),
            Box::new(num_expr(false, vec![3]))
        ))
    );
}

#[test]
fn parse_fraction_then_suffix() {
    assert_eq!(
        parse_wave(b"1.5.add(1)"),
        Some(Expr::Sum(
            Box::new(Expr::Num(frac_num(false, vec![1], vec![5]))),
            Box::new(num_expr(false, vec![1]))
        ))
    );
}

#[test]
fn parse_nested_combinators() {
    assert_eq!(
        parse_wave(b"add(sine(440),noise(100))"),
        Some(Expr::Sum(
            Box::new(Expr::Sine(Box::new(num_expr(false, vec![4, 4, 0])))),
            Box::new(Expr::Noise(Box::new(num_expr(false, vec![1, 0, 0]))))
        ))
    );
}

#[test]
fn parse_suffix_inside_parentheses() {
    assert_eq!(
        parse_wave(b"sine(2.looped())"),
        Some(Expr::Sine(Box::new(Expr::Looped(Box::new(num_expr(
            false,
            vec![2]
        ))))))
    );
}

#[test]
fn parse_incomplete_suffix_fails() {
    assert_eq!(parse_wave(b"1.add(2"), None);
    assert_eq!(parse_wave(b"1.delayed(x)"), None);
    assert_eq!(parse_wave(b"1.adshr(1,2,3,4)"), None);
}

#[test]
fn parse_rejects_whitespace() {
    assert_eq!(parse_wave(b"sine (440)"), None);
    assert_eq!(parse_wave(b"sine( 440)"), None);
    assert_eq!(parse_wave(b"sine(440) "), None);
}

#[test]
fn parse_rejects_leftover_text() {
    assert_eq!(parse_wave(b"1x"), None);
    assert_eq!(parse_wave(b"sine(440))"), None);
    assert_eq!(parse_wave(b"sine(440).looped"), None);
    assert_eq!(parse_wave(b"sine(440).looped()x"), None);
}

#[test]
fn parse_rejects_unknown_keyword() {
    assert_eq!(parse_wave(b"saw(440)"), None);
    assert_eq!(parse_wave(b"sine(440).twice()"), None);
}

#[test]
fn parse_text_matches_byte_parse() {
    assert_eq!(
        parse_text("sine(440)"),
        Some(Expr::Sine(Box::new(num_expr(false, vec![4, 4, 0]))))
    );
    assert_eq!(parse_text("sine(440"), None);
}
