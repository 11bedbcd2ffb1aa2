use renderer::affine::Affine;
use renderer::scalar::Scalar;

#[test]
fn scalar_arithmetic_is_exact() {
    let a = Scalar::new(1, 2);
    let b = Scalar::new(1, 3);
    let sum = a.add(b);
    assert_eq!(sum, Scalar { num: 5, den: 6 });
    let diff = a.sub(b);
    assert_eq!(diff, Scalar { num: 1, den: 6 });
    let prod = a.mul(b);
    assert_eq!(prod, Scalar { num: 1, den: 6 });
    let half = a.half();
    assert_eq!(half, Scalar { num: 1, den: 4 });
    assert_eq!(Scalar::from_int(-7), Scalar { num: -7, den: 1 });
    assert_eq!(Scalar::zero(), Scalar { num: 0, den: 1 });
    assert_eq!(Scalar::one(), Scalar { num: 1, den: 1 });
}

#[test]
fn scalar_budget_check_matches_limits() {
    assert!(Scalar::new(1_048_576, 16).in_budget_check());
    assert!(!Scalar::new(1_048_577, 16).in_budget_check());
    assert!(!Scalar::new(0, 17).in_budget_check());
}

#[test]
fn identity_composes_neutrally() {
    let t = Affine::translate(Scalar::from_int(5), Scalar::from_int(7));
    let left = Affine::identity().compose(t);
    assert_eq!(left, t);
    let right = t.compose(Affine::identity());
    assert_eq!(right, t);
}

// Pins the composition order: `outer.compose(inner)` applies `inner`
// first. Scaling composed onto a translation therefore scales the
// translation, while the reverse composition leaves it unscaled.
#[test]
fn compose_applies_right_operand_first() {
    let scale = Affine::scale_xy(Scalar::from_int(2), Scalar::from_int(3));
    let translate = Affine::translate(Scalar::from_int(5), Scalar::from_int(7));

    let translate_then_scale = scale.compose(translate);
    assert_eq!(
        translate_then_scale,
        Affine { a: 2, b: 0, c: 0, d: 3, e: 10, f: 21, den: 1 }
    );

    let scale_then_translate = translate.compose(scale);
    assert_eq!(
        scale_then_translate,
        Affine { a: 2, b: 0, c: 0, d: 3, e: 5, f: 7, den: 1 }
    );
}

#[test]
fn compose_handles_rational_denominators() {
    let a = Affine::translate(Scalar::new(1, 2), Scalar::new(3, 4));
    let b = Affine::scale_xy(Scalar::new(1, 2), Scalar::new(5, 1));
    // a has den 8, b has den 2; the composition keeps the exact values.
    let c = a.compose(b);
    // Scale x by 1/2, y by 5, then translate by (1/2, 3/4), exactly.
    assert_eq!(c, Affine { a: 8, b: 0, c: 0, d: 80, e: 8, f: 12, den: 16 });
}
