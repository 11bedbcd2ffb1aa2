use renderer::brushes::Extend;
use renderer::brushes::Gradient;
use renderer::brushes::GradientKind;
use renderer::colors::RGBA;
use renderer::scalar::Scalar;
use renderer::shapes::Point;

fn origin() -> Point {
    Point { x: Scalar::zero(), y: Scalar::zero() }
}

#[test]
fn equidistant_three_colors() {
    let colors = [
        RGBA::opaque(255, 0, 0),
        RGBA::new(0, 255, 0, 255),
        RGBA::new(0, 0, 255, 255),
    ];
    assert_eq!(colors[0], RGBA::new(255, 0, 0, 255));
    let kind = GradientKind::Linear {
        start: origin(),
        end: Point { x: Scalar::from_int(100), y: Scalar::zero() },
    };
    let g = Gradient::new_equidistant(Extend::Pad, kind, &colors);
    assert_eq!(g.stops.len(), 3);
    assert_eq!(g.stops[0].offset, Scalar { num: 0, den: 2 });
    assert_eq!(g.stops[1].offset, Scalar { num: 1, den: 2 });
    assert_eq!(g.stops[2].offset, Scalar { num: 2, den: 2 });
    for (stop, color) in g.stops.iter().zip(colors.iter()) {
        assert_eq!(stop.color, *color);
    }
    // The offsets are strictly increasing.
    for pair in g.stops.windows(2) {
        assert!(pair[0].offset.num * pair[1].offset.den < pair[1].offset.num * pair[0].offset.den);
    }
}

#[test]
fn equidistant_two_colors_spans_zero_to_one() {
    let colors = [RGBA::new(0, 0, 0, 255), RGBA::new(255, 255, 255, 255)];
    let kind = GradientKind::Sweep {
        center: origin(),
        start_angle: Scalar::zero(),
        end_angle: Scalar::from_int(6),
    };
    let g = Gradient::new_equidistant(Extend::Reflect, kind, &colors);
    assert_eq!(g.stops.len(), 2);
    assert_eq!(g.stops[0].offset, Scalar { num: 0, den: 1 });
    assert_eq!(g.stops[1].offset, Scalar { num: 1, den: 1 });
}

#[test]
fn gradient_round_trip_is_lossless() {
    let colors = [
        RGBA::new(10, 20, 30, 40),
        RGBA::new(50, 60, 70, 80),
        RGBA::new(90, 100, 110, 120),
        RGBA::new(130, 140, 150, 160),
    ];
    let kind = GradientKind::Radial {
        start_center: Point { x: Scalar::new(1, 2), y: Scalar::new(-3, 4) },
        start_radius: Scalar::zero(),
        end_center: origin(),
        end_radius: Scalar::from_int(2000),
    };
    let g = Gradient::new_equidistant(Extend::Repeat, kind, &colors);
    let words = g.encode();
    let back = Gradient::decode(&words).expect("a fresh encoding must decode");
    assert_eq!(back.extend, g.extend);
    assert_eq!(back.kind, g.kind);
    assert_eq!(back.stops.len(), g.stops.len());
    for (a, b) in back.stops.iter().zip(g.stops.iter()) {
        assert_eq!(a.offset, b.offset);
        assert_eq!(a.color, b.color);
    }
}

#[test]
fn sweep_gradient_round_trip() {
    let g = Gradient {
        extend: Extend::Pad,
        kind: GradientKind::Sweep {
            center: Point { x: Scalar::from_int(3), y: Scalar::from_int(-5) },
            start_angle: Scalar::new(1, 7),
            end_angle: Scalar::new(22, 7),
        },
        stops: vec![],
    };
    let words = g.encode();
    let back = Gradient::decode(&words).expect("a fresh encoding must decode");
    assert_eq!(back.extend, g.extend);
    assert_eq!(back.kind, g.kind);
    assert!(back.stops.is_empty());
}

#[test]
fn decode_rejects_bad_streams() {
    // Empty stream.
    assert!(Gradient::decode(&vec![]).is_none());
    // Unknown extend tag.
    assert!(Gradient::decode(&vec![99]).is_none());
    // Unknown kind tag.
    assert!(Gradient::decode(&vec![0, 7]).is_none());
    // Truncated linear kind.
    assert!(Gradient::decode(&vec![0, 0, 1, 1]).is_none());
    // Nonpositive scalar denominator.
    let mut words = Gradient {
        extend: Extend::Pad,
        kind: GradientKind::Linear { start: origin(), end: origin() },
        stops: vec![],
    }
    .encode();
    words[3] = 0;
    assert!(Gradient::decode(&words).is_none());
    // Trailing data after a valid encoding.
    let mut ok = Gradient {
        extend: Extend::Pad,
        kind: GradientKind::Linear { start: origin(), end: origin() },
        stops: vec![],
    }
    .encode();
    assert!(Gradient::decode(&ok).is_some());
    ok.push(0);
    assert!(Gradient::decode(&ok).is_none());
}
