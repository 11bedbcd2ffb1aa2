use renderer::affine::Affine;
use renderer::brushes::Brush;
use renderer::brushes::Extend;
use renderer::brushes::Image;
use renderer::colors::RGBA;
use renderer::geoms::Geom;
use renderer::geoms::GeomTrait;
use renderer::scalar::Scalar;
use renderer::scenes::Command;
use renderer::scenes::Glyph;
use renderer::scenes::Scene;
use renderer::shapes::Point;
use renderer::styles::FillStyle;
use renderer::styles::ImageFitMode;
use renderer::styles::Style;
use renderer::text::Alignment;
use renderer::text::FontMetrics;
use renderer::text::FontStyle;
use renderer::text::FormatedText;
use renderer::text::ShapedGlyph;
use renderer::text::ShapedText;
use renderer::text::VerticalAlignment;
use renderer::scenes::Drawable;
use renderer::text::layout_glyphs;
use renderer::text::check_layout_bounds;

type TestScene = Scene<u8, u8>;

fn formatted(text: &str, alignment: Alignment) -> FormatedText<u8> {
    FormatedText {
        x: 0,
        y: 0,
        text: text.chars().collect(),
        size: Scalar::from_int(100),
        color: RGBA::new(255, 255, 0, 255),
        weight: Scalar::from_int(400),
        font: 0u8,
        style: FontStyle::Normal,
        alignment,
        vertical_alignment: VerticalAlignment::Top,
        transform: Affine::identity(),
        glyph_transform: None,
    }
}

// Text "AB" with advances (10, 12) lays out at (0, y) and (10, y); a
// centered alignment then corrects by -11, half of the total width 22.
#[test]
fn centered_ab_layout_and_correction() {
    let chars: Vec<char> = "AB".chars().collect();
    let shaping = vec![
        ShapedGlyph { glyph_id: 1, advance: 10 },
        ShapedGlyph { glyph_id: 2, advance: 12 },
    ];
    let (glyphs, width, final_y) = layout_glyphs(&chars, &shaping, 14, 0, 0);
    assert_eq!(glyphs, vec![Glyph { id: 1, x: 0, y: 0 }, Glyph { id: 2, x: 10, y: 0 }]);
    assert_eq!(width, 22);
    assert_eq!(final_y, 0);

    let shaped = ShapedText {
        base: formatted("AB", Alignment::Center),
        shaping,
        metrics: FontMetrics { ascent: 12, descent: -1, leading: 1 },
    };
    let mut scene: TestScene =
        Scene::new_with_transform(RGBA::new(0, 0, 0, 255), 100, 100, Affine::identity());
    assert!(<ShapedText<u8> as Drawable<u8, u8>>::check_can_draw(&shaped, &scene.global_transform));
    scene.draw(shaped);
    assert_eq!(scene.commands.len(), 1);
    match &scene.commands[0] {
        Command::Glyphs(run) => {
            // Correction is a pre-translate of (-22/2, 0) = (-11, 0).
            assert_eq!(run.transform, Affine { a: 2, b: 0, c: 0, d: 2, e: -22, f: 0, den: 2 });
            assert_eq!(run.text, vec!['A', 'B']);
            assert_eq!(run.line_height, 14);
            assert_eq!(run.start_x, 0);
            assert_eq!(run.start_y, 0);
            let positioned = run.positioned().expect("in-budget run must position");
            assert_eq!(
                positioned,
                vec![Glyph { id: 1, x: 0, y: 0 }, Glyph { id: 2, x: 10, y: 0 }]
            );
        }
        _ => panic!("expected a glyph run"),
    }
}

#[test]
fn right_bottom_alignment_corrects_by_full_extent() {
    let shaping = vec![
        ShapedGlyph { glyph_id: 1, advance: 10 },
        ShapedGlyph { glyph_id: 2, advance: 12 },
    ];
    let mut base = formatted("AB", Alignment::Right);
    base.vertical_alignment = VerticalAlignment::Bottom;
    let shaped = ShapedText {
        base,
        shaping,
        metrics: FontMetrics { ascent: 12, descent: -1, leading: 1 },
    };
    let mut scene: TestScene =
        Scene::new_with_transform(RGBA::new(0, 0, 0, 255), 100, 100, Affine::identity());
    scene.draw(shaped);
    match &scene.commands[0] {
        Command::Glyphs(run) => {
            // Width 22, height 0 + 14: shift by (-22, +14), as halves
            // over the shared denominator 2.
            assert_eq!(run.transform, Affine { a: 2, b: 0, c: 0, d: 2, e: -44, f: 28, den: 2 });
        }
        _ => panic!("expected a glyph run"),
    }
}

#[test]
fn newline_resets_the_pen() {
    let chars: Vec<char> = "a\nb".chars().collect();
    let shaping = vec![
        ShapedGlyph { glyph_id: 7, advance: 9 },
        ShapedGlyph { glyph_id: 0, advance: 0 },
        ShapedGlyph { glyph_id: 8, advance: 4 },
    ];
    let (glyphs, width, final_y) = layout_glyphs(&chars, &shaping, 20, 0, 0);
    assert_eq!(glyphs, vec![Glyph { id: 7, x: 0, y: 0 }, Glyph { id: 8, x: 0, y: 20 }]);
    // The text width is the final pen x: the second line's extent.
    assert_eq!(width, 4);
    assert_eq!(final_y, 20);
}

#[test]
fn empty_text_emits_no_glyphs() {
    let chars: Vec<char> = Vec::new();
    let shaping: Vec<ShapedGlyph> = Vec::new();
    let (glyphs, width, final_y) = layout_glyphs(&chars, &shaping, 20, 5, 6);
    assert!(glyphs.is_empty());
    assert_eq!(width, 5);
    assert_eq!(final_y, 6);
}

#[test]
fn out_of_budget_layout_is_rejected() {
    let chars: Vec<char> = vec!['x'];
    let shaping = vec![ShapedGlyph { glyph_id: 1, advance: i64::MAX / 2 }];
    assert!(check_layout_bounds(&chars, &shaping, 10, 0, 0).is_none());
    assert!(check_layout_bounds(&chars, &shaping, 10, i64::MAX - 1, 0).is_none());
}

#[test]
fn image_fill_stretches_onto_the_rectangle() {
    let image = Image { data: 0u8, width: 100, height: 50 };
    let g: Geom<_, u8> = Geom::new_image(
        image,
        Scalar::from_int(200),
        Scalar::from_int(200),
        Scalar::from_int(500),
        Scalar::from_int(500),
        Affine::identity(),
        ImageFitMode::Fill,
    );
    assert!(matches!(g.style, Style::Fill(FillStyle::NonZero)));
    // Rectangle centered at (200, 200) with extent 500 by 500.
    assert_eq!(g.shape.a.x, Scalar { num: -100, den: 2 });
    assert_eq!(g.shape.a.y, Scalar { num: -100, den: 2 });
    assert_eq!(g.shape.b.x, Scalar { num: 900, den: 2 });
    assert_eq!(g.shape.b.y, Scalar { num: 900, den: 2 });
    match &g.brush {
        Brush::Texture { image, fit_mode, edge_mode, offset } => {
            assert_eq!(image.width, 100);
            assert_eq!(image.height, 50);
            assert_eq!(*fit_mode, ImageFitMode::Fill);
            assert_eq!(*edge_mode, Extend::Pad);
            assert_eq!(*offset, Point { x: Scalar { num: 0, den: 1 }, y: Scalar { num: 0, den: 1 } });
        }
        _ => panic!("expected a texture brush"),
    }
    // The brush transform scales (5, 10) and re-centers to (-50, -50):
    // image pixel (0,0) lands on the top-left corner and (100, 50) on
    // the bottom-right corner.
    let m = g.brush_transform.expect("fill mode derives a brush transform");
    assert_eq!(m.b, 0);
    assert_eq!(m.c, 0);
    // a/den == 5, d/den == 10, e/den == -50, f/den == -50.
    assert_eq!(m.a, 5 * m.den);
    assert_eq!(m.d, 10 * m.den);
    assert_eq!(m.e, -50 * m.den);
    assert_eq!(m.f, -50 * m.den);
    // Corner check through the matrix itself.
    assert_eq!((m.a * 0 + m.e) * 2, -100 * m.den); // x of mapped (0,0) is -50
    assert_eq!((m.a * 100 + m.e) * 2, 900 * m.den); // x of mapped (100,50) is 450
    assert_eq!((m.d * 50 + m.f) * 2, 900 * m.den); // y of mapped (100,50) is 450
}

#[test]
fn image_original_keeps_pixel_space() {
    let image = Image { data: 0u8, width: 64, height: 64 };
    let g: Geom<_, u8> = Geom::new_image(
        image,
        Scalar::zero(),
        Scalar::zero(),
        Scalar::from_int(64),
        Scalar::from_int(64),
        Affine::identity(),
        ImageFitMode::Original,
    );
    assert!(g.brush_transform.is_none());
}
