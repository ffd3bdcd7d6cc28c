//! The abstract syntax of the waveform expression language.
//!
//! A parsed expression is a tree: the leaves are decimal literals and
//! `slide` primitives, the inner nodes are oscillators and combinators.  A
//! literal keeps its decimal digits exactly as written (values `0..=9`, most
//! significant first), so the tree records the text's meaning without any
//! rounding; turning digits into a machine number is the caller's business.
//!
//! Each executable type has a ghost counterpart (`NumberV`, `ExprV`) over
//! `Seq`, reached through `@`; the parser's contracts are stated over those.

use vstd::prelude::*;

verus! {

/// A decimal literal: an optional leading minus, one or more integer digits,
/// and optionally a dot followed by one or more fractional digits.
#[derive(Debug, PartialEq, Eq)]
pub struct Number {
    /// Whether the literal begins with a minus sign.
    pub neg: bool,
    /// The digits before the dot, values `0..=9`, most significant first.
    pub int_digits: Vec<u8>,
    /// The digits after the dot, empty when the literal has no dot.
    pub frac_digits: Vec<u8>,
}

/// The mathematical content of a [`Number`]: the same fields over `Seq`.
pub ghost struct NumberV {
    /// Whether the literal begins with a minus sign.
    pub neg: bool,
    /// The digits before the dot.
    pub int_digits: Seq<u8>,
    /// The digits after the dot, empty when the literal has no dot.
    pub frac_digits: Seq<u8>,
}

impl View for Number {
    type V = NumberV;

    open spec fn view(&self) -> NumberV {
        NumberV { neg: self.neg, int_digits: self.int_digits@, frac_digits: self.frac_digits@ }
    }
}

/// A waveform expression.
#[derive(Debug, PartialEq, Eq)]
pub enum Expr {
    /// A constant waveform: a bare decimal literal.
    Num(Number),
    /// A sine oscillator; the child controls its frequency.
    Sine(Box<Expr>),
    /// A noise generator; the child controls its frequency.
    Noise(Box<Expr>),
    /// A pulse oscillator; the children control frequency and duty cycle.
    Pulse(Box<Expr>, Box<Expr>),
    /// A triangle oscillator; the children control frequency and duty cycle.
    Triangle(Box<Expr>, Box<Expr>),
    /// A quadratic slide from a position, with a velocity and an acceleration.
    Slide(Number, Number, Number),
    /// The sum of two waveforms.
    Sum(Box<Expr>, Box<Expr>),
    /// The product of two waveforms.
    Product(Box<Expr>, Box<Expr>),
    /// The child repeated indefinitely.
    Looped(Box<Expr>),
    /// The child delayed by a duration in seconds.
    Delayed(Box<Expr>, Number),
    /// The child shaped by an attack/decay/sustain/hold/release envelope.
    Adshr(Box<Expr>, Number, Number, Number, Number, Number),
}

/// The mathematical content of an [`Expr`]: the same tree over [`NumberV`].
pub ghost enum ExprV {
    /// A constant waveform: a bare decimal literal.
    Num(NumberV),
    /// A sine oscillator; the child controls its frequency.
    Sine(Box<ExprV>),
    /// A noise generator; the child controls its frequency.
    Noise(Box<ExprV>),
    /// A pulse oscillator; the children control frequency and duty cycle.
    Pulse(Box<ExprV>, Box<ExprV>),
    /// A triangle oscillator; the children control frequency and duty cycle.
    Triangle(Box<ExprV>, Box<ExprV>),
    /// A quadratic slide from a position, with a velocity and an acceleration.
    Slide(NumberV, NumberV, NumberV),
    /// The sum of two waveforms.
    Sum(Box<ExprV>, Box<ExprV>),
    /// The product of two waveforms.
    Product(Box<ExprV>, Box<ExprV>),
    /// The child repeated indefinitely.
    Looped(Box<ExprV>),
    /// The child delayed by a duration in seconds.
    Delayed(Box<ExprV>, NumberV),
    /// The child shaped by an attack/decay/sustain/hold/release envelope.
    Adshr(Box<ExprV>, NumberV, NumberV, NumberV, NumberV, NumberV),
}

/// The view of an expression tree, node by node.
pub open spec fn view_expr(e: Expr) -> ExprV
    decreases e,
{
    match e {
        Expr::Num(n) => ExprV::Num(n@),
        Expr::Sine(f) => ExprV::Sine(Box::new(view_expr(*f))),
        Expr::Noise(f) => ExprV::Noise(Box::new(view_expr(*f))),
        Expr::Pulse(f, d) => ExprV::Pulse(Box::new(view_expr(*f)), Box::new(view_expr(*d))),
        Expr::Triangle(f, d) => ExprV::Triangle(Box::new(view_expr(*f)), Box::new(view_expr(*d))),
        Expr::Slide(p, v, a) => ExprV::Slide(p@, v@, a@),
        Expr::Sum(a, b) => ExprV::Sum(Box::new(view_expr(*a)), Box::new(view_expr(*b))),
        Expr::Product(a, b) => ExprV::Product(Box::new(view_expr(*a)), Box::new(view_expr(*b))),
        Expr::Looped(w) => ExprV::Looped(Box::new(view_expr(*w))),
        Expr::Delayed(w, s) => ExprV::Delayed(Box::new(view_expr(*w)), s@),
        Expr::Adshr(w, a, d, s, h, r) => ExprV::Adshr(
            Box::new(view_expr(*w)),
            a@,
            d@,
            s@,
            h@,
            r@,
        ),
    }
}

impl View for Expr {
    type V = ExprV;

    open spec fn view(&self) -> ExprV {
        view_expr(*self)
    }
}

/// A well-formed literal: at least one integer digit, every digit `0..=9`.
pub open spec fn wf_number(n: NumberV) -> bool {
    &&& n.int_digits.len() >= 1
    &&& forall|i: int| 0 <= i < n.int_digits.len() ==> n.int_digits[i] < 10
    &&& forall|i: int| 0 <= i < n.frac_digits.len() ==> n.frac_digits[i] < 10
}

/// A well-formed expression tree: every literal in it is well formed.
pub open spec fn wf_expr(e: ExprV) -> bool
    decreases e,
{
    match e {
        ExprV::Num(n) => wf_number(n),
        ExprV::Sine(f) => wf_expr(*f),
        ExprV::Noise(f) => wf_expr(*f),
        ExprV::Pulse(f, d) => wf_expr(*f) && wf_expr(*d),
        ExprV::Triangle(f, d) => wf_expr(*f) && wf_expr(*d),
        ExprV::Slide(p, v, a) => wf_number(p) && wf_number(v) && wf_number(a),
        ExprV::Sum(a, b) => wf_expr(*a) && wf_expr(*b),
        ExprV::Product(a, b) => wf_expr(*a) && wf_expr(*b),
        ExprV::Looped(w) => wf_expr(*w),
        ExprV::Delayed(w, s) => wf_expr(*w) && wf_number(s),
        ExprV::Adshr(w, a, d, s, h, r) => wf_expr(*w) && wf_number(a) && wf_number(d)
            && wf_number(s) && wf_number(h) && wf_number(r),
    }
}

} // verus!
