//! Tests of the combinator termination decisions.

use soundgen::combine::SumStep;
use soundgen::combine::product_step;
use soundgen::combine::sum_step;

#[test]
fn sum_ends_only_when_both_end() {
    assert_eq!(sum_step::<f32>(None, None), SumStep::End);
    assert_eq!(sum_step(Some(1.5f32), None), SumStep::Lone(1.5));
    assert_eq!(sum_step(None, Some(-0.5f32)), SumStep::Lone(-0.5));
    assert_eq!(sum_step(Some(1.0f32), Some(2.0f32)), SumStep::Both(1.0, 2.0));
}

#[test]
fn product_ends_when_either_ends() {
    assert_eq!(product_step::<f32>(None, None), None);
    assert_eq!(product_step(Some(1.5f32), None), None);
    assert_eq!(product_step(None, Some(2.5f32)), None);
    assert_eq!(product_step(Some(2.0f32), Some(3.0f32)), Some((2.0, 3.0)));
}

#[test]
fn sum_decision_is_symmetric() {
    let cases = [
        (None, None),
        (Some(1.0f32), None),
        (None, Some(2.0f32)),
        (Some(1.0f32), Some(2.0f32)),
    ];
    for (a, b) in cases {
        let fwd = sum_step(a, b);
        let rev = sum_step(b, a);
        let swapped = match rev {
            SumStep::End => SumStep::End,
            SumStep::Lone(x) => SumStep::Lone(x),
            SumStep::Both(x, y) => SumStep::Both(y, x),
        };
        assert_eq!(fwd, swapped);
    }
}
