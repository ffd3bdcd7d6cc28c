//! Termination decisions of the two binary combinators.
//!
//! A combinator's `next` call resolves both children every call, then decides
//! from the two optional results whether the combinator itself has ended and
//! which values flow on.  That decision is exact and independent of the
//! sample arithmetic, so it is made here, under a full contract; the caller
//! performs the one floating-point addition or multiplication on whatever
//! pair of values this module hands back.
//!
//! - A sum is permissive: it ends only when both children have ended, and
//!   while exactly one child is live its value passes through unchanged.
//! - A product is strict: it ends as soon as either child has ended.

use vstd::prelude::*;

verus! {

/// What one step of a sum combinator yields, before any arithmetic is done.
#[derive(Debug, PartialEq, Eq)]
pub enum SumStep<T> {
    /// Both children ended in this call: the sum ends too.
    End,
    /// Exactly one child is still live: its value passes through as-is.
    Lone(T),
    /// Both children are live: the caller adds the two values.
    Both(T, T),
}

/// The sum decision as a mathematical function of the two child results.
pub open spec fn sum_step_spec<T>(a: Option<T>, b: Option<T>) -> SumStep<T> {
    match (a, b) {
        (Option::None, Option::None) => SumStep::End,
        (Option::Some(x), Option::None) => SumStep::Lone(x),
        (Option::None, Option::Some(y)) => SumStep::Lone(y),
        (Option::Some(x), Option::Some(y)) => SumStep::Both(x, y),
    }
}

/// The product decision as a mathematical function of the two child results.
pub open spec fn product_step_spec<T>(a: Option<T>, b: Option<T>) -> Option<(T, T)> {
    match (a, b) {
        (Option::Some(x), Option::Some(y)) => Option::Some((x, y)),
        _ => Option::None,
    }
}

/// Decides one step of a sum combinator from the two child results.  The sum
/// ends exactly when both children have ended; a single live child's value is
/// passed through unchanged, never zero-filled.
pub fn sum_step<T>(a: Option<T>, b: Option<T>) -> (r: SumStep<T>)
    ensures
        r == sum_step_spec(a, b),
        r is End <==> (a is None && b is None),
{
    match (a, b) {
        (Option::None, Option::None) => SumStep::End,
        (Option::Some(x), Option::None) => SumStep::Lone(x),
        (Option::None, Option::Some(y)) => SumStep::Lone(y),
        (Option::Some(x), Option::Some(y)) => SumStep::Both(x, y),
    }
}

/// Decides one step of a product combinator from the two child results.  The
/// product ends as soon as either child has ended, even though both children
/// were advanced; otherwise both values flow to the caller's multiplication.
pub fn product_step<T>(a: Option<T>, b: Option<T>) -> (r: Option<(T, T)>)
    ensures
        r == product_step_spec(a, b),
        r is Some <==> (a is Some && b is Some),
{
    match (a, b) {
        (Option::Some(x), Option::Some(y)) => Option::Some((x, y)),
        _ => Option::None,
    }
}

/// The sum decision is symmetric in its two children: swapping the children
/// swaps nothing observable but the order of a `Both` pair.  Together with
/// commutativity of the caller's addition this makes a sum commutative.
pub proof fn lemma_sum_step_commutes<T>(a: Option<T>, b: Option<T>)
    ensures
        sum_step_spec(a, b) is End <==> sum_step_spec(b, a) is End,
        forall|x: T| sum_step_spec(a, b) == SumStep::Lone(x) <==> sum_step_spec(b, a)
            == SumStep::Lone(x),
        forall|x: T, y: T|
            sum_step_spec(a, b) == SumStep::<T>::Both(x, y) <==> sum_step_spec(b, a)
                == SumStep::<T>::Both(y, x),
{
}

/// The product decision is symmetric in the same sense: the ended/live
/// outcome does not depend on the order of the children.
pub proof fn lemma_product_step_commutes<T>(a: Option<T>, b: Option<T>)
    ensures
        product_step_spec(a, b) is Some <==> product_step_spec(b, a) is Some,
        forall|x: T, y: T|
            product_step_spec(a, b) == Option::Some((x, y)) <==> product_step_spec(b, a)
                == Option::Some((y, x)),
{
}

} // verus!
