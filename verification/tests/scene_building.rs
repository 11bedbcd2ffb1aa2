use renderer::affine::Affine;
use renderer::brushes::Brush;
use renderer::colors::RGBA;
use renderer::geoms::Geom;
use renderer::prerendered_scene::PrerenderedScene;
use renderer::prerendered_scene::check_stream;
use renderer::scalar::Scalar;
use renderer::scenes::Command;
use renderer::scenes::Scene;
use renderer::shapes::Circle;
use renderer::shapes::Point;
use renderer::shapes::Shape;
use renderer::styles::CompositeMode;
use renderer::styles::FillStyle;
use renderer::styles::MixMode;
use renderer::styles::Style;

type TestScene = Scene<u8, u8>;

fn unit_circle() -> Circle {
    Circle {
        center: Point { x: Scalar::zero(), y: Scalar::zero() },
        radius: Scalar::from_int(10),
    }
}

fn red_circle() -> Geom<Circle, u8> {
    Geom {
        style: Style::Fill(FillStyle::NonZero),
        shape: unit_circle(),
        brush: Brush::Solid(RGBA::new(255, 0, 0, 255)),
        transform: Affine::identity(),
        brush_transform: None,
    }
}

#[test]
fn new_scene_centers_the_origin() {
    let scene: TestScene = Scene::new(RGBA::new(0, 0, 255, 255), 800, 600);
    assert_eq!(scene.width, 800);
    assert_eq!(scene.height, 600);
    // translate(width/2, height/2), exactly.
    assert_eq!(
        scene.global_transform,
        Affine { a: 2, b: 0, c: 0, d: 2, e: 800, f: 600, den: 2 }
    );
    assert!(scene.commands.is_empty());
    assert_eq!(scene.open_layers(), 0);
}

#[test]
fn draw_fill_composes_global_and_local() {
    let mut scene: TestScene =
        Scene::new_with_transform(RGBA::new(0, 0, 0, 255), 100, 100, Affine::identity());
    let mut geom = red_circle();
    geom.transform = Affine::translate(Scalar::from_int(3), Scalar::from_int(4));
    scene.draw(geom);
    assert_eq!(scene.commands.len(), 1);
    match &scene.commands[0] {
        Command::Fill { shape, style, brush, transform, brush_transform } => {
            assert_eq!(*shape, Shape::Circle(unit_circle()));
            assert_eq!(*style, FillStyle::NonZero);
            assert!(matches!(brush, Brush::Solid(c) if *c == RGBA::new(255, 0, 0, 255)));
            // Identity global: the command carries the object transform.
            assert_eq!(*transform, Affine { a: 1, b: 0, c: 0, d: 1, e: 3, f: 4, den: 1 });
            assert!(brush_transform.is_none());
        }
        _ => panic!("expected a fill command"),
    }
}

#[test]
fn layer_stack_counts_pushes_and_pops() {
    let mut scene: TestScene = Scene::new(RGBA::new(0, 0, 0, 255), 64, 64);
    scene.start_layer(
        MixMode::Normal,
        CompositeMode::SourceOver,
        unit_circle(),
        Affine::identity(),
        None,
        Scalar::one(),
    );
    assert_eq!(scene.open_layers(), 1);
    scene.start_layer(
        MixMode::Multiply,
        CompositeMode::SourceIn,
        unit_circle(),
        Affine::identity(),
        None,
        Scalar::one(),
    );
    assert_eq!(scene.open_layers(), 2);
    scene.end_layer();
    assert_eq!(scene.open_layers(), 1);
    scene.end_layer();
    assert_eq!(scene.open_layers(), 0);
    assert!(check_stream(&scene.commands));
    assert!(matches!(scene.commands[0], Command::PushLayer(_)));
    assert!(matches!(scene.commands[1], Command::PushLayer(_)));
    assert!(matches!(scene.commands[2], Command::PopLayer));
    assert!(matches!(scene.commands[3], Command::PopLayer));
}

#[test]
fn unbalanced_stream_is_detected() {
    let mut scene: TestScene = Scene::new(RGBA::new(0, 0, 0, 255), 64, 64);
    scene.start_layer(
        MixMode::Normal,
        CompositeMode::SourceOver,
        unit_circle(),
        Affine::identity(),
        None,
        Scalar::one(),
    );
    assert!(!check_stream(&scene.commands));
}

#[test]
fn alpha_mask_emits_two_nested_layers() {
    let mut scene: TestScene =
        Scene::new_with_transform(RGBA::new(0, 0, 0, 255), 100, 100, Affine::identity());
    let content = red_circle();
    let mut mask = red_circle();
    mask.brush = Brush::Solid(RGBA::new(255, 255, 255, 255));
    let clip = Shape::Circle(unit_circle());
    scene.draw_alpha_mask(content, mask, clip, Affine::identity());
    assert_eq!(scene.commands.len(), 6);
    match &scene.commands[0] {
        Command::PushLayer(layer) => {
            assert_eq!(layer.mix_mode, MixMode::Normal);
            assert_eq!(layer.composite_mode, CompositeMode::SourceOver);
            assert_eq!(layer.clip_shape, clip);
            assert_eq!(layer.alpha, Scalar { num: 1, den: 1 });
        }
        _ => panic!("expected the content layer push"),
    }
    assert!(matches!(scene.commands[1], Command::Fill { .. }));
    match &scene.commands[2] {
        Command::PushLayer(layer) => {
            assert_eq!(layer.mix_mode, MixMode::Multiply);
            assert_eq!(layer.composite_mode, CompositeMode::SourceIn);
            assert_eq!(layer.clip_shape, clip);
        }
        _ => panic!("expected the mask layer push"),
    }
    assert!(matches!(scene.commands[3], Command::Fill { .. }));
    assert!(matches!(scene.commands[4], Command::PopLayer));
    assert!(matches!(scene.commands[5], Command::PopLayer));
    assert_eq!(scene.open_layers(), 0);
    assert!(check_stream(&scene.commands));
}

#[test]
fn prerendered_scene_appends_under_composed_transform() {
    let mut sub: TestScene =
        Scene::new_with_transform(RGBA::new(0, 0, 0, 255), 10, 10, Affine::identity());
    sub.draw(red_circle());
    let pre = PrerenderedScene::new(
        sub,
        Affine::translate(Scalar::from_int(5), Scalar::from_int(6)),
    );
    let mut main: TestScene =
        Scene::new_with_transform(RGBA::new(0, 0, 0, 255), 100, 100, Affine::identity());
    main.draw(pre);
    assert_eq!(main.commands.len(), 1);
    match &main.commands[0] {
        Command::Append { commands, transform } => {
            assert_eq!(commands.len(), 1);
            assert!(matches!(commands[0], Command::Fill { .. }));
            assert_eq!(*transform, Affine { a: 1, b: 0, c: 0, d: 1, e: 5, f: 6, den: 1 });
        }
        _ => panic!("expected an append command"),
    }
}
