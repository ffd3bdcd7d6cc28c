//! The recursive-descent parser of the waveform expression language.
//!
//! The grammar, with no whitespace anywhere between tokens:
//!
//! ```text
//! expr   := base (suffix)*
//! base   := number | "noise(" expr ")" | "mul(" expr "," expr ")"
//!         | "pulse(" expr "," expr ")" | "sine(" expr ")"
//!         | "slide(" number "," number "," number ")"
//!         | "add(" expr "," expr ")" | "triangle(" expr "," expr ")"
//! suffix := ".add(" expr ")" | ".adshr(" number "," number "," number ","
//!           number "," number ")" | ".delayed(" number ")" | ".looped()"
//!         | ".mul(" expr ")"
//! number := ["-"] digits ["." digits]
//! ```
//!
//! The specification of the language is the family of `sp_*` functions below:
//! a deterministic functional reading of the grammar over the input bytes.
//! `sp_expr(s, i)` yields the parsed tree and the position one past it, or
//! nothing when no production matches at `i`; suffixes are folded onto the
//! base from the left, and a suffix that does not parse completely ends the
//! fold without consuming anything.  A whole input is accepted only when
//! `sp_expr` starts at zero and stops exactly at the end ([`spec_parse`]);
//! the executable parser returns precisely that result.
//!
//! Positions fed back into recursive spec calls pass through [`cap`], which
//! keeps the termination measure decreasing without appeal to the (true, but
//! not yet established) fact that a sub-parse never moves backwards.  The
//! executable parser proves its positions in range, so `cap` never actually
//! changes one.

use vstd::prelude::*;
use vstd::string::StringSliceAdditionalSpecFns;

use crate::ast::Expr;
use crate::ast::ExprV;
use crate::ast::Number;
use crate::ast::NumberV;
use crate::ast::wf_expr;
use crate::ast::wf_number;

verus! {

/// Whether `c` is an ASCII decimal digit.
pub open spec fn is_digit(c: u8) -> bool {
    48 <= c && c <= 57
}

/// Whether position `j` exists and holds byte `c`.
pub open spec fn at(s: Seq<u8>, j: int, c: u8) -> bool {
    0 <= j < s.len() && s[j] == c
}

/// How much input is left at position `i`, clipped to `[0, s.len()]`: the
/// termination measure of the parser.
pub open spec fn rem(s: Seq<u8>, i: int) -> int {
    if i < 0 {
        s.len() as int
    } else if i > s.len() {
        0
    } else {
        s.len() - i
    }
}

/// `j` clipped to `[lo, hi]`; the parser's recursive calls run positions
/// through this so that [`rem`] provably shrinks.
pub open spec fn cap(lo: int, j: int, hi: int) -> int {
    if j < lo {
        lo
    } else if j > hi {
        hi
    } else {
        j
    }
}

/// The end of the run of digits that starts at `i`: the first position at or
/// after `i` that is past the input or holds a non-digit.
pub open spec fn digit_run_end(s: Seq<u8>, i: int) -> int
    decreases s.len() - i,
{
    if 0 <= i < s.len() && is_digit(s[i]) {
        digit_run_end(s, i + 1)
    } else {
        i
    }
}

/// The digit values (each `0..=9`) of the input bytes in `[a, b)`.
pub open spec fn digits_of(s: Seq<u8>, a: int, b: int) -> Seq<u8> {
    s.subrange(a, b).map_values(|c: u8| (c - 48) as u8)
}

/// `number := ["-"] digits ["." digits]`.  A dot counts as a fraction only
/// when a digit follows it; otherwise the number ends before the dot.
pub open spec fn sp_number(s: Seq<u8>, i: int) -> Option<(NumberV, int)> {
    let (neg, j) = if at(s, i, 45) {
        (true, i + 1)
    } else {
        (false, i)
    };
    let e1 = digit_run_end(s, j);
    if e1 == j {
        None
    } else if at(s, e1, 46) && e1 + 1 < s.len() && is_digit(s[e1 + 1]) {
        let e2 = digit_run_end(s, e1 + 1);
        Some(
            (
                NumberV {
                    neg,
                    int_digits: digits_of(s, j, e1),
                    frac_digits: digits_of(s, e1 + 1, e2),
                },
                e2,
            ),
        )
    } else {
        Some(
            (NumberV { neg, int_digits: digits_of(s, j, e1), frac_digits: Seq::empty() }, e1),
        )
    }
}

/// A number followed by a comma; yields the position after the comma.
pub open spec fn sp_num_comma(s: Seq<u8>, i: int) -> Option<(NumberV, int)> {
    match sp_number(s, i) {
        Some((nm, j)) => if at(s, j, 44) {
            Some((nm, j + 1))
        } else {
            None
        },
        None => None,
    }
}

/// The keyword `noise(` at `i`.
pub open spec fn kw_noise(s: Seq<u8>, i: int) -> bool {
    at(s, i, 110) && at(s, i + 1, 111) && at(s, i + 2, 105) && at(s, i + 3, 115) && at(
        s,
        i + 4,
        101,
    ) && at(s, i + 5, 40)
}

/// The keyword `mul(` at `i`.
pub open spec fn kw_mul(s: Seq<u8>, i: int) -> bool {
    at(s, i, 109) && at(s, i + 1, 117) && at(s, i + 2, 108) && at(s, i + 3, 40)
}

/// The keyword `pulse(` at `i`.
pub open spec fn kw_pulse(s: Seq<u8>, i: int) -> bool {
    at(s, i, 112) && at(s, i + 1, 117) && at(s, i + 2, 108) && at(s, i + 3, 115) && at(
        s,
        i + 4,
        101,
    ) && at(s, i + 5, 40)
}

/// The keyword `sine(` at `i`.
pub open spec fn kw_sine(s: Seq<u8>, i: int) -> bool {
    at(s, i, 115) && at(s, i + 1, 105) && at(s, i + 2, 110) && at(s, i + 3, 101) && at(
        s,
        i + 4,
        40,
    )
}

/// The keyword `slide(` at `i`.
pub open spec fn kw_slide(s: Seq<u8>, i: int) -> bool {
    at(s, i, 115) && at(s, i + 1, 108) && at(s, i + 2, 105) && at(s, i + 3, 100) && at(
        s,
        i + 4,
        101,
    ) && at(s, i + 5, 40)
}

/// The keyword `add(` at `i`.
pub open spec fn kw_add(s: Seq<u8>, i: int) -> bool {
    at(s, i, 97) && at(s, i + 1, 100) && at(s, i + 2, 100) && at(s, i + 3, 40)
}

/// The keyword `triangle(` at `i`.
pub open spec fn kw_triangle(s: Seq<u8>, i: int) -> bool {
    at(s, i, 116) && at(s, i + 1, 114) && at(s, i + 2, 105) && at(s, i + 3, 97) && at(
        s,
        i + 4,
        110,
    ) && at(s, i + 5, 103) && at(s, i + 6, 108) && at(s, i + 7, 101) && at(s, i + 8, 40)
}

/// The suffix opener `.add(` at `i`.
pub open spec fn sfx_add(s: Seq<u8>, i: int) -> bool {
    at(s, i, 46) && at(s, i + 1, 97) && at(s, i + 2, 100) && at(s, i + 3, 100) && at(
        s,
        i + 4,
        40,
    )
}

/// The suffix opener `.mul(` at `i`.
pub open spec fn sfx_mul(s: Seq<u8>, i: int) -> bool {
    at(s, i, 46) && at(s, i + 1, 109) && at(s, i + 2, 117) && at(s, i + 3, 108) && at(
        s,
        i + 4,
        40,
    )
}

/// The suffix opener `.adshr(` at `i`.
pub open spec fn sfx_adshr(s: Seq<u8>, i: int) -> bool {
    at(s, i, 46) && at(s, i + 1, 97) && at(s, i + 2, 100) && at(s, i + 3, 115) && at(
        s,
        i + 4,
        104,
    ) && at(s, i + 5, 114) && at(s, i + 6, 40)
}

/// The suffix opener `.delayed(` at `i`.
pub open spec fn sfx_delayed(s: Seq<u8>, i: int) -> bool {
    at(s, i, 46) && at(s, i + 1, 100) && at(s, i + 2, 101) && at(s, i + 3, 108) && at(
        s,
        i + 4,
        97,
    ) && at(s, i + 5, 121) && at(s, i + 6, 101) && at(s, i + 7, 100) && at(s, i + 8, 40)
}

/// The whole suffix `.looped()` at `i`.
pub open spec fn sfx_looped(s: Seq<u8>, i: int) -> bool {
    at(s, i, 46) && at(s, i + 1, 108) && at(s, i + 2, 111) && at(s, i + 3, 111) && at(
        s,
        i + 4,
        112,
    ) && at(s, i + 5, 101) && at(s, i + 6, 100) && at(s, i + 7, 40) && at(s, i + 8, 41)
}

/// A number followed by the closing parenthesis; yields the position after
/// `)`.
pub open spec fn sp_number_close(s: Seq<u8>, i: int) -> Option<(NumberV, int)> {
    match sp_number(s, i) {
        Some((nm, j)) => if at(s, j, 41) {
            Some((nm, j + 1))
        } else {
            None
        },
        None => None,
    }
}

/// `number,number,number)`: the argument list of `slide(`.
pub open spec fn sp_triple_close(s: Seq<u8>, i: int) -> Option<
    ((NumberV, NumberV, NumberV), int),
> {
    match sp_num_comma(s, i) {
        Some((a, j1)) => match sp_num_comma(s, j1) {
            Some((b, j2)) => match sp_number_close(s, j2) {
                Some((c, j3)) => Some(((a, b, c), j3)),
                None => None,
            },
            None => None,
        },
        None => None,
    }
}

/// Five comma-separated numbers and the closing parenthesis: the argument
/// list of `.adshr(`.
pub open spec fn sp_five_close(s: Seq<u8>, i: int) -> Option<
    ((NumberV, NumberV, NumberV, NumberV, NumberV), int),
> {
    match sp_num_comma(s, i) {
        Some((a, j1)) => match sp_num_comma(s, j1) {
            Some((b, j2)) => match sp_num_comma(s, j2) {
                Some((c, j3)) => match sp_num_comma(s, j3) {
                    Some((d, j4)) => match sp_number_close(s, j4) {
                        Some((e, j5)) => Some(((a, b, c, d, e), j5)),
                        None => None,
                    },
                    None => None,
                },
                None => None,
            },
            None => None,
        },
        None => None,
    }
}

/// `expr := base (suffix)*`.
pub open spec fn sp_expr(s: Seq<u8>, i: int) -> Option<(ExprV, int)>
    decreases rem(s, i), 2int,
{
    match sp_base(s, i) {
        Some((e, j)) => Some(sp_suffixes(s, cap(i, j, s.len() as int), e)),
        None => None,
    }
}

/// An `expr` followed by the closing parenthesis; yields the position after
/// `)`.
pub open spec fn sp_expr_close(s: Seq<u8>, i: int) -> Option<(ExprV, int)>
    decreases rem(s, i), 3int,
{
    match sp_expr(s, i) {
        Some((e, j)) => if at(s, j, 41) {
            Some((e, j + 1))
        } else {
            None
        },
        None => None,
    }
}

/// `expr,expr)`: the argument list shared by the binary bases, starting
/// just after their opening parenthesis; yields the position after `)`.
pub open spec fn sp_pair(s: Seq<u8>, i: int) -> Option<((ExprV, ExprV), int)>
    decreases rem(s, i), 4int,
{
    match sp_expr(s, i) {
        Some((a, j1)) => if at(s, j1, 44) {
            match sp_expr_close(s, cap(i + 1, j1 + 1, s.len() as int)) {
                Some((b, j2)) => Some(((a, b), j2)),
                None => None,
            }
        } else {
            None
        },
        None => None,
    }
}

/// One `base` production at `i`.
pub open spec fn sp_base(s: Seq<u8>, i: int) -> Option<(ExprV, int)>
    decreases rem(s, i), 1int,
{
    if kw_noise(s, i) {
        match sp_expr_close(s, i + 6) {
            Some((f, j)) => Some((ExprV::Noise(Box::new(f)), j)),
            None => None,
        }
    } else if kw_mul(s, i) {
        match sp_pair(s, i + 4) {
            Some(((a, b), j)) => Some((ExprV::Product(Box::new(a), Box::new(b)), j)),
            None => None,
        }
    } else if kw_pulse(s, i) {
        match sp_pair(s, i + 6) {
            Some(((f, d), j)) => Some((ExprV::Pulse(Box::new(f), Box::new(d)), j)),
            None => None,
        }
    } else if kw_sine(s, i) {
        match sp_expr_close(s, i + 5) {
            Some((f, j)) => Some((ExprV::Sine(Box::new(f)), j)),
            None => None,
        }
    } else if kw_slide(s, i) {
        match sp_triple_close(s, i + 6) {
            Some(((p, v, acc), j)) => Some((ExprV::Slide(p, v, acc), j)),
            None => None,
        }
    } else if kw_add(s, i) {
        match sp_pair(s, i + 4) {
            Some(((a, b), j)) => Some((ExprV::Sum(Box::new(a), Box::new(b)), j)),
            None => None,
        }
    } else if kw_triangle(s, i) {
        match sp_pair(s, i + 9) {
            Some(((f, d), j)) => Some((ExprV::Triangle(Box::new(f), Box::new(d)), j)),
            None => None,
        }
    } else {
        match sp_number(s, i) {
            Some((nm, j)) => Some((ExprV::Num(nm), j)),
            None => None,
        }
    }
}

/// The left fold of `(suffix)*` onto `e` from position `i`.  A suffix that
/// opens but does not parse to its closing parenthesis consumes nothing and
/// ends the fold; the leftover text then fails the whole parse at the top.
pub open spec fn sp_suffixes(s: Seq<u8>, i: int, e: ExprV) -> (ExprV, int)
    decreases rem(s, i), 0int,
{
    if sfx_looped(s, i) {
        sp_suffixes(s, i + 9, ExprV::Looped(Box::new(e)))
    } else if sfx_add(s, i) {
        match sp_expr_close(s, i + 5) {
            Some((b, j)) => sp_suffixes(
                s,
                cap(i + 1, j, s.len() as int),
                ExprV::Sum(Box::new(e), Box::new(b)),
            ),
            None => (e, i),
        }
    } else if sfx_mul(s, i) {
        match sp_expr_close(s, i + 5) {
            Some((b, j)) => sp_suffixes(
                s,
                cap(i + 1, j, s.len() as int),
                ExprV::Product(Box::new(e), Box::new(b)),
            ),
            None => (e, i),
        }
    } else if sfx_delayed(s, i) {
        match sp_number_close(s, i + 9) {
            Some((nm, j)) => sp_suffixes(
                s,
                cap(i + 1, j, s.len() as int),
                ExprV::Delayed(Box::new(e), nm),
            ),
            None => (e, i),
        }
    } else if sfx_adshr(s, i) {
        match sp_five_close(s, i + 7) {
            Some(((a, d, sus, h, rel), j)) => sp_suffixes(
                s,
                cap(i + 1, j, s.len() as int),
                ExprV::Adshr(Box::new(e), a, d, sus, h, rel),
            ),
            None => (e, i),
        }
    } else {
        (e, i)
    }
}

/// What parsing a whole input means: one `expr` that starts at the first
/// byte and stops exactly at the last.  Anything else - a syntactic
/// mismatch, or leftover text - is a failure with no partial result.
pub open spec fn spec_parse(s: Seq<u8>) -> Option<ExprV> {
    match sp_expr(s, 0) {
        Some((e, j)) => if j == s.len() {
            Some(e)
        } else {
            None
        },
        None => None,
    }
}

/// Whether position `i + off` exists and holds byte `c`.
fn byte_is(s: &[u8], i: usize, off: usize, c: u8) -> (r: bool)
    ensures
        r == at(s@, i as int + off as int, c),
{
    off < s.len() && i < s.len() - off && s[i + off] == c
}

/// The run of digits starting at `i`: their values and the position just
/// past the run.
fn parse_digits(s: &[u8], i: usize) -> (r: (Vec<u8>, usize))
    requires
        i <= s@.len(),
    ensures
        r.1 == digit_run_end(s@, i as int),
        i <= r.1 <= s@.len(),
        r.0@ == digits_of(s@, i as int, r.1 as int),
        forall|k: int| 0 <= k < r.0@.len() ==> r.0@[k] < 10,
{
    let n = s.len();
    let mut j = i;
    let mut ds: Vec<u8> = Vec::new();
    proof {
        assert(ds@ =~= digits_of(s@, i as int, i as int));
    }
    while j < n && 48 <= s[j] && s[j] <= 57
        invariant
            n == s@.len(),
            i <= j <= n,
            digit_run_end(s@, i as int) == digit_run_end(s@, j as int),
            ds@ == digits_of(s@, i as int, j as int),
            forall|k: int| 0 <= k < ds@.len() ==> ds@[k] < 10,
        decreases n - j,
    {
        ds.push(s[j] - 48);
        proof {
            assert(ds@ =~= digits_of(s@, i as int, j + 1));
        }
        j += 1;
    }
    (ds, j)
}

/// `number := ["-"] digits ["." digits]` at `i`, as [`sp_number`] reads it.
fn parse_number(s: &[u8], i: usize) -> (r: Option<(Number, usize)>)
    requires
        i <= s@.len(),
    ensures
        match r {
            Some((nm, j)) => {
                &&& sp_number(s@, i as int) == Some((nm@, j as int))
                &&& i < j <= s@.len()
                &&& wf_number(nm@)
            },
            None => sp_number(s@, i as int) is None,
        },
{
    let n = s.len();
    let (neg, j0) = if byte_is(s, i, 0, 45) {
        (true, i + 1)
    } else {
        (false, i)
    };
    let (ip, e1) = parse_digits(s, j0);
    if e1 == j0 {
        return None;
    }
    if byte_is(s, e1, 0, 46) && e1 + 1 < n && 48 <= s[e1 + 1] && s[e1 + 1] <= 57 {
        let (fp, e2) = parse_digits(s, e1 + 1);
        Some((Number { neg, int_digits: ip, frac_digits: fp }, e2))
    } else {
        Some((Number { neg, int_digits: ip, frac_digits: Vec::new() }, e1))
    }
}

/// A number followed by a comma, as [`sp_num_comma`] reads it.
fn parse_num_comma(s: &[u8], i: usize) -> (r: Option<(Number, usize)>)
    requires
        i <= s@.len(),
    ensures
        match r {
            Some((nm, j)) => {
                &&& sp_num_comma(s@, i as int) == Some((nm@, j as int))
                &&& i < j <= s@.len()
                &&& wf_number(nm@)
            },
            None => sp_num_comma(s@, i as int) is None,
        },
{
    // Fixing the length as a usize lets position arithmetic stay in bounds.
    let n = s.len();
    proof {
        assert(n == s@.len());
    }
    match parse_number(s, i) {
        Some((nm, j)) => {
            if byte_is(s, j, 0, 44) {
                Some((nm, j + 1))
            } else {
                None
            }
        },
        None => None,
    }
}

/// The keyword `noise(` at `i`.
fn is_kw_noise(s: &[u8], i: usize) -> (r: bool)
    ensures
        r == kw_noise(s@, i as int),
{
    byte_is(s, i, 0, 110) && byte_is(s, i, 1, 111) && byte_is(s, i, 2, 105) && byte_is(
        s,
        i,
        3,
        115,
    ) && byte_is(s, i, 4, 101) && byte_is(s, i, 5, 40)
}

/// The keyword `mul(` at `i`.
fn is_kw_mul(s: &[u8], i: usize) -> (r: bool)
    ensures
        r == kw_mul(s@, i as int),
{
    byte_is(s, i, 0, 109) && byte_is(s, i, 1, 117) && byte_is(s, i, 2, 108) && byte_is(s, i, 3, 40)
}

/// The keyword `pulse(` at `i`.
fn is_kw_pulse(s: &[u8], i: usize) -> (r: bool)
    ensures
        r == kw_pulse(s@, i as int),
{
    byte_is(s, i, 0, 112) && byte_is(s, i, 1, 117) && byte_is(s, i, 2, 108) && byte_is(
        s,
        i,
        3,
        115,
    ) && byte_is(s, i, 4, 101) && byte_is(s, i, 5, 40)
}

/// The keyword `sine(` at `i`.
fn is_kw_sine(s: &[u8], i: usize) -> (r: bool)
    ensures
        r == kw_sine(s@, i as int),
{
    byte_is(s, i, 0, 115) && byte_is(s, i, 1, 105) && byte_is(s, i, 2, 110) && byte_is(
        s,
        i,
        3,
        101,
    ) && byte_is(s, i, 4, 40)
}

/// The keyword `slide(` at `i`.
fn is_kw_slide(s: &[u8], i: usize) -> (r: bool)
    ensures
        r == kw_slide(s@, i as int),
{
    byte_is(s, i, 0, 115) && byte_is(s, i, 1, 108) && byte_is(s, i, 2, 105) && byte_is(
        s,
        i,
        3,
        100,
    ) && byte_is(s, i, 4, 101) && byte_is(s, i, 5, 40)
}

/// The keyword `add(` at `i`.
fn is_kw_add(s: &[u8], i: usize) -> (r: bool)
    ensures
        r == kw_add(s@, i as int),
{
    byte_is(s, i, 0, 97) && byte_is(s, i, 1, 100) && byte_is(s, i, 2, 100) && byte_is(s, i, 3, 40)
}

/// The keyword `triangle(` at `i`.
fn is_kw_triangle(s: &[u8], i: usize) -> (r: bool)
    ensures
        r == kw_triangle(s@, i as int),
{
    byte_is(s, i, 0, 116) && byte_is(s, i, 1, 114) && byte_is(s, i, 2, 105) && byte_is(
        s,
        i,
        3,
        97,
    ) && byte_is(s, i, 4, 110) && byte_is(s, i, 5, 103) && byte_is(s, i, 6, 108) && byte_is(
        s,
        i,
        7,
        101,
    ) && byte_is(s, i, 8, 40)
}

/// The suffix opener `.add(` at `i`.
fn is_sfx_add(s: &[u8], i: usize) -> (r: bool)
    ensures
        r == sfx_add(s@, i as int),
{
    byte_is(s, i, 0, 46) && byte_is(s, i, 1, 97) && byte_is(s, i, 2, 100) && byte_is(
        s,
        i,
        3,
        100,
    ) && byte_is(s, i, 4, 40)
}

/// The suffix opener `.mul(` at `i`.
fn is_sfx_mul(s: &[u8], i: usize) -> (r: bool)
    ensures
        r == sfx_mul(s@, i as int),
{
    byte_is(s, i, 0, 46) && byte_is(s, i, 1, 109) && byte_is(s, i, 2, 117) && byte_is(
        s,
        i,
        3,
        108,
    ) && byte_is(s, i, 4, 40)
}

/// The suffix opener `.adshr(` at `i`.
fn is_sfx_adshr(s: &[u8], i: usize) -> (r: bool)
    ensures
        r == sfx_adshr(s@, i as int),
{
    byte_is(s, i, 0, 46) && byte_is(s, i, 1, 97) && byte_is(s, i, 2, 100) && byte_is(
        s,
        i,
        3,
        115,
    ) && byte_is(s, i, 4, 104) && byte_is(s, i, 5, 114) && byte_is(s, i, 6, 40)
}

/// The suffix opener `.delayed(` at `i`.
fn is_sfx_delayed(s: &[u8], i: usize) -> (r: bool)
    ensures
        r == sfx_delayed(s@, i as int),
{
    byte_is(s, i, 0, 46) && byte_is(s, i, 1, 100) && byte_is(s, i, 2, 101) && byte_is(
        s,
        i,
        3,
        108,
    ) && byte_is(s, i, 4, 97) && byte_is(s, i, 5, 121) && byte_is(s, i, 6, 101) && byte_is(
        s,
        i,
        7,
        100,
    ) && byte_is(s, i, 8, 40)
}

/// The whole suffix `.looped()` at `i`.
fn is_sfx_looped(s: &[u8], i: usize) -> (r: bool)
    ensures
        r == sfx_looped(s@, i as int),
{
    byte_is(s, i, 0, 46) && byte_is(s, i, 1, 108) && byte_is(s, i, 2, 111) && byte_is(
        s,
        i,
        3,
        111,
    ) && byte_is(s, i, 4, 112) && byte_is(s, i, 5, 101) && byte_is(s, i, 6, 100) && byte_is(
        s,
        i,
        7,
        40,
    ) && byte_is(s, i, 8, 41)
}

/// A number and the closing parenthesis, as [`sp_number_close`] reads it.
fn parse_number_close(s: &[u8], i: usize) -> (r: Option<(Number, usize)>)
    requires
        i <= s@.len(),
    ensures
        match r {
            Some((nm, j)) => {
                &&& sp_number_close(s@, i as int) == Some((nm@, j as int))
                &&& i < j <= s@.len()
                &&& wf_number(nm@)
            },
            None => sp_number_close(s@, i as int) is None,
        },
{
    // Fixing the length as a usize lets position arithmetic stay in bounds.
    let n = s.len();
    proof {
        assert(n == s@.len());
    }
    match parse_number(s, i) {
        Some((nm, j)) => {
            if byte_is(s, j, 0, 41) {
                Some((nm, j + 1))
            } else {
                None
            }
        },
        None => None,
    }
}

/// The argument list of `slide(`, as [`sp_triple_close`] reads it.
fn parse_triple_close(s: &[u8], i: usize) -> (r: Option<((Number, Number, Number), usize)>)
    requires
        i <= s@.len(),
    ensures
        match r {
            Some(((a, b, c), j)) => {
                &&& sp_triple_close(s@, i as int) == Some(((a@, b@, c@), j as int))
                &&& i < j <= s@.len()
                &&& wf_number(a@)
                &&& wf_number(b@)
                &&& wf_number(c@)
            },
            None => sp_triple_close(s@, i as int) is None,
        },
{
    match parse_num_comma(s, i) {
        Some((a, j1)) => match parse_num_comma(s, j1) {
            Some((b, j2)) => match parse_number_close(s, j2) {
                Some((c, j3)) => Some(((a, b, c), j3)),
                None => None,
            },
            None => None,
        },
        None => None,
    }
}

/// The argument list of `.adshr(`, as [`sp_five_close`] reads it.
fn parse_five_close(s: &[u8], i: usize) -> (r: Option<
    ((Number, Number, Number, Number, Number), usize),
>)
    requires
        i <= s@.len(),
    ensures
        match r {
            Some(((a, b, c, d, e), j)) => {
                &&& sp_five_close(s@, i as int) == Some(((a@, b@, c@, d@, e@), j as int))
                &&& i < j <= s@.len()
                &&& wf_number(a@)
                &&& wf_number(b@)
                &&& wf_number(c@)
                &&& wf_number(d@)
                &&& wf_number(e@)
            },
            None => sp_five_close(s@, i as int) is None,
        },
{
    match parse_num_comma(s, i) {
        Some((a, j1)) => match parse_num_comma(s, j1) {
            Some((b, j2)) => match parse_num_comma(s, j2) {
                Some((c, j3)) => match parse_num_comma(s, j3) {
                    Some((d, j4)) => match parse_number_close(s, j4) {
                        Some((e, j5)) => Some(((a, b, c, d, e), j5)),
                        None => None,
                    },
                    None => None,
                },
                None => None,
            },
            None => None,
        },
        None => None,
    }
}

/// One `expr` at `i`, as [`sp_expr`] reads it.
fn parse_expr(s: &[u8], i: usize) -> (r: Option<(Expr, usize)>)
    requires
        i <= s@.len(),
    ensures
        match r {
            Some((e, j)) => {
                &&& sp_expr(s@, i as int) == Some((e@, j as int))
                &&& i <= j <= s@.len()
                &&& wf_expr(e@)
            },
            None => sp_expr(s@, i as int) is None,
        },
    decreases s@.len() - i, 2int,
{
    match parse_base(s, i) {
        Some((e, j)) => Some(parse_suffixes(s, j, e)),
        None => None,
    }
}

/// An `expr` and the closing parenthesis, as [`sp_expr_close`] reads it.
fn parse_expr_close(s: &[u8], i: usize) -> (r: Option<(Expr, usize)>)
    requires
        i <= s@.len(),
    ensures
        match r {
            Some((e, j)) => {
                &&& sp_expr_close(s@, i as int) == Some((e@, j as int))
                &&& i < j <= s@.len()
                &&& wf_expr(e@)
            },
            None => sp_expr_close(s@, i as int) is None,
        },
    decreases s@.len() - i, 3int,
{
    // Fixing the length as a usize lets position arithmetic stay in bounds.
    let n = s.len();
    proof {
        assert(n == s@.len());
    }
    match parse_expr(s, i) {
        Some((e, j)) => {
            if byte_is(s, j, 0, 41) {
                Some((e, j + 1))
            } else {
                None
            }
        },
        None => None,
    }
}

/// The argument list `expr,expr)` at `i`, as [`sp_pair`] reads it.
fn parse_pair(s: &[u8], i: usize) -> (r: Option<((Expr, Expr), usize)>)
    requires
        i <= s@.len(),
    ensures
        match r {
            Some(((a, b), j)) => {
                &&& sp_pair(s@, i as int) == Some(((a@, b@), j as int))
                &&& i <= j <= s@.len()
                &&& wf_expr(a@)
                &&& wf_expr(b@)
            },
            None => sp_pair(s@, i as int) is None,
        },
    decreases s@.len() - i, 4int,
{
    // Fixing the length as a usize lets position arithmetic stay in bounds.
    let n = s.len();
    proof {
        assert(n == s@.len());
    }
    match parse_expr(s, i) {
        Some((a, j1)) => {
            if byte_is(s, j1, 0, 44) {
                match parse_expr_close(s, j1 + 1) {
                    Some((b, j2)) => Some(((a, b), j2)),
                    None => None,
                }
            } else {
                None
            }
        },
        None => None,
    }
}

/// One `base` production at `i`, as [`sp_base`] reads it.
fn parse_base(s: &[u8], i: usize) -> (r: Option<(Expr, usize)>)
    requires
        i <= s@.len(),
    ensures
        match r {
            Some((e, j)) => {
                &&& sp_base(s@, i as int) == Some((e@, j as int))
                &&& i <= j <= s@.len()
                &&& wf_expr(e@)
            },
            None => sp_base(s@, i as int) is None,
        },
    decreases s@.len() - i, 1int,
{
    // Fixing the length as a usize lets position arithmetic stay in bounds.
    let n = s.len();
    proof {
        assert(n == s@.len());
    }
    if is_kw_noise(s, i) {
        match parse_expr_close(s, i + 6) {
            Some((f, j)) => Some((Expr::Noise(Box::new(f)), j)),
            None => None,
        }
    } else if is_kw_mul(s, i) {
        match parse_pair(s, i + 4) {
            Some(((a, b), j)) => Some((Expr::Product(Box::new(a), Box::new(b)), j)),
            None => None,
        }
    } else if is_kw_pulse(s, i) {
        match parse_pair(s, i + 6) {
            Some(((f, d), j)) => Some((Expr::Pulse(Box::new(f), Box::new(d)), j)),
            None => None,
        }
    } else if is_kw_sine(s, i) {
        match parse_expr_close(s, i + 5) {
            Some((f, j)) => Some((Expr::Sine(Box::new(f)), j)),
            None => None,
        }
    } else if is_kw_slide(s, i) {
        match parse_triple_close(s, i + 6) {
            Some(((p, v, acc), j)) => Some((Expr::Slide(p, v, acc), j)),
            None => None,
        }
    } else if is_kw_add(s, i) {
        match parse_pair(s, i + 4) {
            Some(((a, b), j)) => Some((Expr::Sum(Box::new(a), Box::new(b)), j)),
            None => None,
        }
    } else if is_kw_triangle(s, i) {
        match parse_pair(s, i + 9) {
            Some(((f, d), j)) => Some((Expr::Triangle(Box::new(f), Box::new(d)), j)),
            None => None,
        }
    } else {
        match parse_number(s, i) {
            Some((nm, j)) => Some((Expr::Num(nm), j)),
            None => None,
        }
    }
}

/// The left fold of `(suffix)*` onto `e`, as [`sp_suffixes`] reads it.
fn parse_suffixes(s: &[u8], i: usize, e: Expr) -> (r: (Expr, usize))
    requires
        i <= s@.len(),
    ensures
        sp_suffixes(s@, i as int, e@) == (r.0@, r.1 as int),
        i <= r.1 <= s@.len(),
        wf_expr(e@) ==> wf_expr(r.0@),
    decreases s@.len() - i, 0int,
{
    // Fixing the length as a usize lets position arithmetic stay in bounds.
    let n = s.len();
    proof {
        assert(n == s@.len());
    }
    if is_sfx_looped(s, i) {
        parse_suffixes(s, i + 9, Expr::Looped(Box::new(e)))
    } else if is_sfx_add(s, i) {
        match parse_expr_close(s, i + 5) {
            Some((b, j)) => parse_suffixes(s, j, Expr::Sum(Box::new(e), Box::new(b))),
            None => (e, i),
        }
    } else if is_sfx_mul(s, i) {
        match parse_expr_close(s, i + 5) {
            Some((b, j)) => parse_suffixes(s, j, Expr::Product(Box::new(e), Box::new(b))),
            None => (e, i),
        }
    } else if is_sfx_delayed(s, i) {
        match parse_number_close(s, i + 9) {
            Some((nm, j)) => parse_suffixes(s, j, Expr::Delayed(Box::new(e), nm)),
            None => (e, i),
        }
    } else if is_sfx_adshr(s, i) {
        match parse_five_close(s, i + 7) {
            Some(((a, d, sus, h, rel), j)) => parse_suffixes(
                s,
                j,
                Expr::Adshr(Box::new(e), a, d, sus, h, rel),
            ),
            None => (e, i),
        }
    } else {
        (e, i)
    }
}

/// Parses a whole waveform expression.  Succeeds exactly when the input is
/// one `expr` of the grammar with nothing before or after it, and then
/// returns the tree that [`spec_parse`] assigns to the input; any syntactic
/// mismatch or leftover text yields `None` and no partial result.
pub fn parse_wave(s: &[u8]) -> (r: Option<Expr>)
    ensures
        match r {
            Some(e) => {
                &&& spec_parse(s@) == Some(e@)
                &&& wf_expr(e@)
            },
            None => spec_parse(s@) is None,
        },
{
    match parse_expr(s, 0) {
        Some((e, j)) => {
            if j == s.len() {
                Some(e)
            } else {
                None
            }
        },
        None => None,
    }
}

/// Parses a whole waveform expression given as text, by its bytes: the
/// grammar is ASCII, so [`spec_parse`] of the text's bytes decides success.
pub fn parse_text(s: &str) -> (r: Option<Expr>)
    ensures
        match r {
            Some(e) => {
                &&& spec_parse(s.spec_bytes()) == Some(e@)
                &&& wf_expr(e@)
            },
            None => spec_parse(s.spec_bytes()) is None,
        },
{
    parse_wave(s.as_bytes())
}

} // verus!
