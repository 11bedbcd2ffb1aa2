//! The scene: an ordered command list under a layer-stack discipline.
//!
//! A scene is built once per frame. Drawing lowers each primitive
//! immediately under the scene's current global transform into one
//! command; layers bracket commands with blend state and a clip. The
//! scene keeps the stream well nested: every prefix closes at most as
//! many layers as it has opened, and `layer_depth` counts the layers
//! still open.
//!
//! The scene is generic over `T`, the image pixel payload, and `F`, the
//! font resource, both opaque to the library.

use vstd::prelude::*;
use crate::affine::Affine;
use crate::affine::compose_affine;
use crate::affine::lemma_budget_compose_fits;
use crate::brushes::Brush;
use crate::colors::RGBA;
use crate::scalar::Scalar;
use crate::shapes::IntoShape;
use crate::shapes::Shape;
use crate::styles::CompositeMode;
use crate::styles::FillStyle;
use crate::styles::MixMode;
use crate::styles::StrokeStyle;

verus! {

/// One layer bracket: blend state, clip and opacity. A layer is active
/// from its push until the matching pop.
#[derive(Clone, Debug)]
pub struct Layer {
    pub mix_mode: MixMode,
    pub composite_mode: CompositeMode,
    pub clip_shape: Shape,
    /// The clip shape's transform, already composed with the global
    /// transform that was current at the push.
    pub clip_transform: Affine,
    pub alpha: Scalar,
}

/// A glyph with its identifier and pen position in layout units.
#[derive(Clone, Copy, Debug, PartialEq, Eq, Structural)]
pub struct Glyph {
    pub id: u32,
    pub x: i64,
    pub y: i64,
}

/// A run of shaped text in one font, size and color, with its pen
/// start and line height. The glyph positions are a verified function
/// of these fields: a backend obtains them from
/// [`GlyphRun::positioned`] (defined with the layout algorithm).
#[derive(Clone, Debug)]
pub struct GlyphRun<F> {
    pub font: F,
    pub size: Scalar,
    pub color: RGBA,
    /// The characters of the run.
    pub text: Vec<char>,
    /// Shaping data from the font collaborator, one entry per
    /// character.
    pub shaping: Vec<crate::text::ShapedGlyph>,
    /// The height of one text line, in layout units.
    pub line_height: i64,
    /// The starting pen position, in layout units.
    pub start_x: i64,
    pub start_y: i64,
    /// The full placement transform of the run, alignment correction
    /// included.
    pub transform: Affine,
    /// An extra per-glyph transform, passed through to the backend.
    pub glyph_transform: Option<Affine>,
}

/// One resolved backend command.
#[derive(Debug)]
pub enum Command<T, F> {
    /// Fill a shape under a fill rule.
    Fill {
        shape: Shape,
        style: FillStyle,
        brush: Brush<T>,
        transform: Affine,
        brush_transform: Option<Affine>,
    },
    /// Stroke a shape's outline.
    Stroke {
        shape: Shape,
        style: StrokeStyle,
        brush: Brush<T>,
        transform: Affine,
        brush_transform: Option<Affine>,
    },
    /// Open a layer bracket.
    PushLayer(Layer),
    /// Close the most recently opened layer bracket.
    PopLayer,
    /// Draw a positioned glyph run.
    Glyphs(GlyphRun<F>),
    /// Replay a previously built, balanced command stream under a
    /// transform.
    Append { commands: Vec<Command<T, F>>, transform: Affine },
}

/// How one command changes the number of open layers.
pub open spec fn cmd_layer_delta<T, F>(c: Command<T, F>) -> int {
    match c {
        Command::PushLayer(_) => 1,
        Command::PopLayer => -1,
        _ => 0,
    }
}

/// The net number of layers a command stream leaves open.
pub open spec fn layer_delta<T, F>(cmds: Seq<Command<T, F>>) -> int
    decreases cmds.len(),
{
    if cmds.len() == 0 {
        0
    } else {
        layer_delta(cmds.drop_last()) + cmd_layer_delta(cmds.last())
    }
}

/// Every prefix of the stream closes at most as many layers as it has
/// opened.
pub open spec fn prefix_wf<T, F>(cmds: Seq<Command<T, F>>) -> bool {
    forall|i: int| 0 <= i <= cmds.len() ==> layer_delta(#[trigger] cmds.take(i)) >= 0
}

/// A balanced command stream: well nested, with every pushed layer
/// popped again.
pub open spec fn balanced<T, F>(cmds: Seq<Command<T, F>>) -> bool {
    layer_delta(cmds) == 0 && prefix_wf(cmds)
}

/// The stream contains no nested replay of another stream.
pub open spec fn no_append<T, F>(cmds: Seq<Command<T, F>>) -> bool {
    forall|i: int| 0 <= i < cmds.len() ==> !((#[trigger] cmds[i]) is Append)
}

/// Appending one command moves the net layer count by that command's
/// delta and keeps every prefix well nested as long as the count stays
/// nonnegative.
pub proof fn lemma_push_delta<T, F>(cmds: Seq<Command<T, F>>, cmd: Command<T, F>)
    ensures
        layer_delta(cmds.push(cmd)) == layer_delta(cmds) + cmd_layer_delta(cmd),
        prefix_wf(cmds) && layer_delta(cmds) + cmd_layer_delta(cmd) >= 0 ==> prefix_wf(
            cmds.push(cmd),
        ),
{
    let p = cmds.push(cmd);
    assert(p.drop_last() =~= cmds);
    assert(p.last() == cmd);
    if prefix_wf(cmds) && layer_delta(cmds) + cmd_layer_delta(cmd) >= 0 {
        assert forall|i: int| 0 <= i <= p.len() implies layer_delta(#[trigger] p.take(i)) >= 0 by {
            if i <= cmds.len() {
                assert(p.take(i) =~= cmds.take(i));
                assert(layer_delta(cmds.take(i)) >= 0);
            } else {
                assert(p.take(i) =~= p);
            }
        }
    }
}

/// An immediate-mode scene: the commands accumulated so far, the global
/// transform they were lowered under, and the number of still-open
/// layers.
#[derive(Debug)]
pub struct Scene<T, F> {
    pub background_color: RGBA,
    pub width: u32,
    pub height: u32,
    /// Composed onto every drawn object's own transform; objects are
    /// mapped object-space, then global-space.
    pub global_transform: Affine,
    pub commands: Vec<Command<T, F>>,
    /// The number of layers pushed and not yet popped.
    pub layer_depth: usize,
}

/// A value that can lower itself into a scene: the single extensible
/// drawing capability. A drawable appends a balanced run of commands,
/// determined by the drawable and the scene's global transform, and
/// touches nothing else.
pub trait Drawable<T, F>: Sized {
    /// The drawable's own requirement on itself and the global
    /// transform it will be lowered under, typically that its
    /// coordinates stay inside the arithmetic budget.
    spec fn can_draw(self, global: Affine) -> bool;

    /// The commands this drawable lowers to under `global`.
    spec fn emitted(self, global: Affine) -> Seq<Command<T, F>>;

    /// Decide `can_draw` at run time, for callers outside the verified
    /// world.
    fn check_can_draw(&self, global: &Affine) -> (ok: bool)
        ensures
            ok == self.can_draw(*global),
    ;

    /// Lower this value into the scene.
    fn draw(self, scene: &mut Scene<T, F>)
        requires
            old(scene).wf(),
            self.can_draw(old(scene).global_transform),
        ensures
            final(scene).wf(),
            final(scene).commands@ == old(scene).commands@ + self.emitted(
                old(scene).global_transform,
            ),
            final(scene).background_color == old(scene).background_color,
            final(scene).width == old(scene).width,
            final(scene).height == old(scene).height,
            final(scene).global_transform == old(scene).global_transform,
            final(scene).layer_depth == old(scene).layer_depth,
    ;
}

impl<T, F> Scene<T, F> {
    /// The command stream is well nested and `layer_depth` counts its
    /// open layers; the global transform stays inside the arithmetic
    /// budget.
    pub open spec fn wf(self) -> bool {
        &&& self.global_transform.in_budget()
        &&& layer_delta(self.commands@) == self.layer_depth
        &&& prefix_wf(self.commands@)
    }

    /// A new scene whose global transform centers the logical origin at
    /// the canvas midpoint: application coordinates are origin-centered.
    pub fn new(background_color: RGBA, width: u32, height: u32) -> (s: Scene<T, F>)
        requires
            width <= crate::affine::AFFINE_COEFF_LIMIT,
            height <= crate::affine::AFFINE_COEFF_LIMIT,
        ensures
            s.background_color == background_color,
            s.width == width,
            s.height == height,
            s.global_transform == (Affine {
                a: 2i64,
                b: 0i64,
                c: 0i64,
                d: 2i64,
                e: width as i64,
                f: height as i64,
                den: 2i64,
            }),
            s.commands@ == Seq::<Command<T, F>>::empty(),
            s.layer_depth == 0,
            s.wf(),
    {
        Scene {
            background_color,
            width,
            height,
            global_transform: Affine {
                a: 2,
                b: 0,
                c: 0,
                d: 2,
                e: width as i64,
                f: height as i64,
                den: 2,
            },
            commands: Vec::new(),
            layer_depth: 0,
        }
    }

    /// A new scene under an arbitrary global transform, for coordinate
    /// systems that are not origin-centered.
    pub fn new_with_transform(
        background_color: RGBA,
        width: u32,
        height: u32,
        global_transform: Affine,
    ) -> (s: Scene<T, F>)
        requires
            global_transform.in_budget(),
        ensures
            s.background_color == background_color,
            s.width == width,
            s.height == height,
            s.global_transform == global_transform,
            s.commands@ == Seq::<Command<T, F>>::empty(),
            s.layer_depth == 0,
            s.wf(),
    {
        Scene {
            background_color,
            width,
            height,
            global_transform,
            commands: Vec::new(),
            layer_depth: 0,
        }
    }

    /// Append one command that neither opens nor closes a layer.
    pub fn push_plain(&mut self, cmd: Command<T, F>)
        requires
            old(self).wf(),
            cmd_layer_delta(cmd) == 0,
        ensures
            final(self).wf(),
            final(self).commands@ == old(self).commands@.push(cmd),
            final(self).background_color == old(self).background_color,
            final(self).width == old(self).width,
            final(self).height == old(self).height,
            final(self).global_transform == old(self).global_transform,
            final(self).layer_depth == old(self).layer_depth,
    {
        proof {
            lemma_push_delta(self.commands@, cmd);
        }
        self.commands.push(cmd);
    }

    /// Draw a renderable object: the object lowers itself under the
    /// scene's global transform.
    pub fn draw<D: Drawable<T, F>>(&mut self, object: D)
        requires
            old(self).wf(),
            object.can_draw(old(self).global_transform),
        ensures
            final(self).wf(),
            final(self).commands@ == old(self).commands@ + object.emitted(
                old(self).global_transform,
            ),
            final(self).background_color == old(self).background_color,
            final(self).width == old(self).width,
            final(self).height == old(self).height,
            final(self).global_transform == old(self).global_transform,
            final(self).layer_depth == old(self).layer_depth,
    {
        object.draw(self);
    }

    /// Push a layer. The clip shape's transform is composed with the
    /// scene's global transform, global applied after local, exactly as
    /// an ordinary object transform is resolved. A layer transform is
    /// accepted in the interface but unsupported: callers must pass
    /// `None`.
    pub fn start_layer<S: IntoShape>(
        &mut self,
        mix_mode: MixMode,
        composite_mode: CompositeMode,
        clip: S,
        clip_transform: Affine,
        layer_transform: Option<Affine>,
        alpha: Scalar,
    )
        requires
            old(self).wf(),
            layer_transform is None,
            clip_transform.in_budget(),
            old(self).layer_depth < usize::MAX,
        ensures
            final(self).wf(),
            final(self).commands@ == old(self).commands@.push(
                Command::PushLayer(
                    Layer {
                        mix_mode,
                        composite_mode,
                        clip_shape: clip.shape(),
                        clip_transform: compose_affine(
                            old(self).global_transform,
                            clip_transform,
                        ),
                        alpha,
                    },
                ),
            ),
            final(self).layer_depth == old(self).layer_depth + 1,
            final(self).background_color == old(self).background_color,
            final(self).width == old(self).width,
            final(self).height == old(self).height,
            final(self).global_transform == old(self).global_transform,
    {
        proof {
            lemma_budget_compose_fits(self.global_transform, clip_transform);
        }
        let composed = self.global_transform.compose(clip_transform);
        let layer = Layer {
            mix_mode,
            composite_mode,
            clip_shape: clip.into_shape(),
            clip_transform: composed,
            alpha,
        };
        let cmd = Command::PushLayer(layer);
        proof {
            lemma_push_delta(self.commands@, cmd);
        }
        self.commands.push(cmd);
        self.layer_depth = self.layer_depth + 1;
    }

    /// Pop the most recently pushed layer. Popping with no layer open
    /// is a caller contract violation and is ruled out here.
    pub fn end_layer(&mut self)
        requires
            old(self).wf(),
            old(self).layer_depth > 0,
        ensures
            final(self).wf(),
            final(self).commands@ == old(self).commands@.push(Command::PopLayer),
            final(self).layer_depth == old(self).layer_depth - 1,
            final(self).background_color == old(self).background_color,
            final(self).width == old(self).width,
            final(self).height == old(self).height,
            final(self).global_transform == old(self).global_transform,
    {
        proof {
            lemma_push_delta(self.commands@, Command::<T, F>::PopLayer);
        }
        self.commands.push(Command::PopLayer);
        self.layer_depth = self.layer_depth - 1;
    }

    /// Draw `content` masked by `mask`'s alpha, clipped to `clip`.
    ///
    /// The pattern is exactly two nested layers: a `Normal`/`SourceOver`
    /// layer holding the content, then a `Multiply`/`SourceIn` layer
    /// holding the mask, closed by two pops in LIFO order. The
    /// `SourceIn` composite on the `Multiply` mix makes the mask's
    /// coverage gate the content: a fully opaque mask reproduces the
    /// content, a fully transparent mask suppresses it.
    pub fn draw_alpha_mask<C: Drawable<T, F>, M: Drawable<T, F>>(
        &mut self,
        content: C,
        mask: M,
        clip: Shape,
        clip_transform: Affine,
    )
        requires
            old(self).wf(),
            content.can_draw(old(self).global_transform),
            mask.can_draw(old(self).global_transform),
            clip_transform.in_budget(),
            old(self).layer_depth + 2 <= usize::MAX,
        ensures
            final(self).wf(),
            final(self).commands@ == old(self).commands@ + seq![
                Command::<T, F>::PushLayer(
                    alpha_mask_content_layer(old(self).global_transform, clip, clip_transform),
                ),
            ] + content.emitted(old(self).global_transform) + seq![
                Command::<T, F>::PushLayer(
                    alpha_mask_mask_layer(old(self).global_transform, clip, clip_transform),
                ),
            ] + mask.emitted(old(self).global_transform) + seq![
                Command::<T, F>::PopLayer,
                Command::<T, F>::PopLayer,
            ],
            final(self).background_color == old(self).background_color,
            final(self).width == old(self).width,
            final(self).height == old(self).height,
            final(self).global_transform == old(self).global_transform,
            final(self).layer_depth == old(self).layer_depth,
    {
        let ghost g = self.global_transform;
        let ghost c0 = self.commands@;
        self.start_layer(
            MixMode::Normal,
            CompositeMode::SourceOver,
            clip,
            clip_transform,
            None,
            Scalar::one(),
        );
        self.draw(content);
        self.start_layer(
            MixMode::Multiply,
            CompositeMode::SourceIn,
            clip,
            clip_transform,
            None,
            Scalar::one(),
        );
        self.draw(mask);
        self.end_layer();
        self.end_layer();
        proof {
            assert(self.commands@ =~= c0 + seq![
                Command::<T, F>::PushLayer(alpha_mask_content_layer(g, clip, clip_transform)),
            ] + content.emitted(g) + seq![
                Command::<T, F>::PushLayer(alpha_mask_mask_layer(g, clip, clip_transform)),
            ] + mask.emitted(g) + seq![Command::<T, F>::PopLayer, Command::<T, F>::PopLayer]);
        }
    }

    /// The number of layers pushed and not yet popped.
    pub fn open_layers(&self) -> (n: usize)
        ensures
            n == self.layer_depth,
    {
        self.layer_depth
    }
}

/// The first layer an alpha mask pushes: normal blending holding the
/// masked content.
pub open spec fn alpha_mask_content_layer(global: Affine, clip: Shape, clip_transform: Affine) -> Layer {
    Layer {
        mix_mode: MixMode::Normal,
        composite_mode: CompositeMode::SourceOver,
        clip_shape: clip,
        clip_transform: compose_affine(global, clip_transform),
        alpha: Scalar { num: 1, den: 1 },
    }
}

/// The second layer an alpha mask pushes: the mask itself, multiplied
/// in and composited `SourceIn` so it gates the content's coverage.
pub open spec fn alpha_mask_mask_layer(global: Affine, clip: Shape, clip_transform: Affine) -> Layer {
    Layer {
        mix_mode: MixMode::Multiply,
        composite_mode: CompositeMode::SourceIn,
        clip_shape: clip,
        clip_transform: compose_affine(global, clip_transform),
        alpha: Scalar { num: 1, den: 1 },
    }
}

/// The default global transform of [`Scene::new`] really centers the
/// logical origin: it maps the origin to the canvas midpoint
/// `(width/2, height/2)`.
pub proof fn lemma_scene_origin_centered<T, F>(s: Scene<T, F>, width: u32, height: u32)
    requires
        s.global_transform == (Affine {
            a: 2i64,
            b: 0i64,
            c: 0i64,
            d: 2i64,
            e: width as i64,
            f: height as i64,
            den: 2i64,
        }),
    ensures
        crate::affine::point_same_value(
            crate::affine::apply_model(
                s.global_transform@,
                crate::affine::PointModel { x: 0, y: 0, w: 1 },
            ),
            crate::shapes::point_model(
                crate::shapes::Point {
                    x: Scalar { num: width as i64, den: 2 },
                    y: Scalar { num: height as i64, den: 2 },
                },
            ),
        ),
{
    let p = crate::affine::apply_model(
        s.global_transform@,
        crate::affine::PointModel { x: 0, y: 0, w: 1 },
    );
    let q = crate::shapes::point_model(
        crate::shapes::Point {
            x: Scalar { num: width as i64, den: 2 },
            y: Scalar { num: height as i64, den: 2 },
        },
    );
    assert(p.x == width as int);
    assert(p.y == height as int);
    assert(p.w == 2);
    assert(q.x == (width as int) * 2);
    assert(q.y == (height as int) * 2);
    assert(q.w == 4);
    assert(p.x * q.w == q.x * p.w);
    assert(p.y * q.w == q.y * p.w);
}

/// The layer discipline pays off: when every pushed layer has been
/// popped again, the whole command stream is balanced — N pushes are
/// matched by exactly N pops, and no prefix pops an unopened layer.
pub proof fn lemma_finished_scene_balanced<T, F>(s: Scene<T, F>)
    requires
        s.wf(),
        s.layer_depth == 0,
    ensures
        balanced(s.commands@),
{
}

} // verus!
