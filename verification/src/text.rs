//! Formatted text and the pen-advance layout algorithm.
//!
//! Layout walks the text left to right: a newline resets the horizontal
//! pen to zero and advances the vertical pen by one line height; every
//! other character becomes a glyph at the current pen position and
//! advances the pen by its advance width. Alignment is a single
//! corrective translation computed from the full extent after the walk,
//! because the extent is only known once the walk completes.
//!
//! Glyph identifiers, advance widths and font metrics come from the
//! font collaborator: a [`ShapedText`] pairs the formatted text with
//! that shaping data, and the layout is verified for whatever data the
//! collaborator supplies.

use vstd::prelude::*;
use crate::affine::Affine;
use crate::affine::compose_affine;
use crate::affine::composed_coeff_bound;
use crate::affine::composed_den_bound;
use crate::affine::lemma_budget_compose_fits;
use crate::affine::lemma_compose_fits;
use crate::affine::model_bounded;
use crate::colors::RGBA;
use crate::scalar::Scalar;
use crate::scenes::Command;
use crate::scenes::Drawable;
use crate::scenes::Glyph;
use crate::scenes::GlyphRun;
use crate::scenes::Scene;

verus! {

/// Largest pen coordinate, text extent, or font metric that stays
/// inside the arithmetic budget of text layout.
pub const TEXT_EXTENT_LIMIT: i64 = 0x8_0000;

/// Horizontal text alignment relative to the pen origin.
#[derive(Clone, Copy, Debug, PartialEq, Eq, Structural)]
pub enum Alignment {
    Left,
    Center,
    Right,
}

/// Vertical text alignment relative to the pen origin.
#[derive(Clone, Copy, Debug, PartialEq, Eq, Structural)]
pub enum VerticalAlignment {
    Top,
    Middle,
    Bottom,
}

/// The slant of a font face.
#[derive(Clone, Copy, Debug, PartialEq, Eq, Structural)]
pub enum FontStyle {
    Normal,
    Italic,
    Oblique,
}

/// A formatted text value: what to draw and how to place it. The pen
/// starts at `(x, y)` in layout units. Drawing requires shaping data
/// from the font collaborator; see [`ShapedText`].
#[derive(Clone, Debug)]
pub struct FormatedText<F> {
    pub x: i64,
    pub y: i64,
    pub text: Vec<char>,
    pub size: Scalar,
    pub color: RGBA,
    pub weight: Scalar,
    pub font: F,
    pub style: FontStyle,
    pub alignment: Alignment,
    pub vertical_alignment: VerticalAlignment,
    pub transform: Affine,
    pub glyph_transform: Option<Affine>,
}

/// Font-wide vertical metrics in layout units, as reported by the font
/// collaborator.
#[derive(Clone, Copy, Debug, PartialEq, Eq, Structural)]
pub struct FontMetrics {
    pub ascent: i64,
    pub descent: i64,
    pub leading: i64,
}

/// The height of one text line.
pub open spec fn line_height_of(m: FontMetrics) -> int {
    m.ascent - m.descent + m.leading
}

/// One character's shaping result from the font collaborator: the
/// glyph identifier the character maps to (the collaborator substitutes
/// its default glyph for unmapped characters) and that glyph's advance
/// width.
#[derive(Clone, Copy, Debug, PartialEq, Eq, Structural)]
pub struct ShapedGlyph {
    pub glyph_id: u32,
    pub advance: i64,
}

/// A formatted text together with its shaping data: entry `i` of
/// `shaping` belongs to character `i` of the text (newline entries are
/// ignored by layout).
#[derive(Clone, Debug)]
pub struct ShapedText<F> {
    pub base: FormatedText<F>,
    pub shaping: Vec<ShapedGlyph>,
    pub metrics: FontMetrics,
}

/// The state a finished layout walk leaves behind: the emitted glyphs
/// and the final pen position. The text width is the final horizontal
/// pen; the text height is the final vertical pen plus one line height.
pub struct LayoutState {
    pub glyphs: Seq<Glyph>,
    pub pen_x: int,
    pub pen_y: int,
}

/// The pen-advance walk over the text, starting at `(pen_x, pen_y)`.
pub open spec fn layout_run(
    chars: Seq<char>,
    shaping: Seq<ShapedGlyph>,
    line_height: int,
    pen_x: int,
    pen_y: int,
) -> LayoutState
    decreases chars.len(),
{
    if chars.len() == 0 {
        LayoutState { glyphs: Seq::empty(), pen_x, pen_y }
    } else if chars[0] == '\n' {
        layout_run(chars.skip(1), shaping.skip(1), line_height, 0, pen_y + line_height)
    } else {
        let rest = layout_run(
            chars.skip(1),
            shaping.skip(1),
            line_height,
            pen_x + shaping[0].advance,
            pen_y,
        );
        LayoutState {
            glyphs: seq![
                Glyph { id: shaping[0].glyph_id, x: pen_x as i64, y: pen_y as i64 },
            ] + rest.glyphs,
            pen_x: rest.pen_x,
            pen_y: rest.pen_y,
        }
    }
}

/// The pen stays within `[-limit, limit]` on both axes at every step
/// of the walk.
pub open spec fn pens_bounded(
    chars: Seq<char>,
    shaping: Seq<ShapedGlyph>,
    line_height: int,
    pen_x: int,
    pen_y: int,
    limit: int,
) -> bool
    decreases chars.len(),
{
    &&& -limit <= pen_x <= limit
    &&& -limit <= pen_y <= limit
    &&& if chars.len() == 0 {
        true
    } else if chars[0] == '\n' {
        pens_bounded(chars.skip(1), shaping.skip(1), line_height, 0, pen_y + line_height, limit)
    } else {
        pens_bounded(
            chars.skip(1),
            shaping.skip(1),
            line_height,
            pen_x + shaping[0].advance,
            pen_y,
            limit,
        )
    }
}

/// Lay the text out, returning the glyphs and the final pen position.
#[verifier::loop_isolation(false)]
pub fn layout_glyphs(
    chars: &Vec<char>,
    shaping: &Vec<ShapedGlyph>,
    line_height: i64,
    start_x: i64,
    start_y: i64,
) -> (r: (Vec<Glyph>, i64, i64))
    requires
        chars@.len() == shaping@.len(),
        pens_bounded(
            chars@,
            shaping@,
            line_height as int,
            start_x as int,
            start_y as int,
            TEXT_EXTENT_LIMIT as int,
        ),
    ensures
        ({
            let m = layout_run(
                chars@,
                shaping@,
                line_height as int,
                start_x as int,
                start_y as int,
            );
            &&& r.0@ == m.glyphs
            &&& r.1 == m.pen_x
            &&& r.2 == m.pen_y
        }),
{
    let ghost full = layout_run(
        chars@,
        shaping@,
        line_height as int,
        start_x as int,
        start_y as int,
    );
    proof {
        assert(chars@.skip(0) =~= chars@);
        assert(shaping@.skip(0) =~= shaping@);
    }
    let mut glyphs: Vec<Glyph> = Vec::new();
    let mut pen_x: i64 = start_x;
    let mut pen_y: i64 = start_y;
    let mut i: usize = 0;
    while i < chars.len()
        invariant
            i <= chars@.len(),
            pens_bounded(
                chars@.skip(i as int),
                shaping@.skip(i as int),
                line_height as int,
                pen_x as int,
                pen_y as int,
                TEXT_EXTENT_LIMIT as int,
            ),
            ({
                let rest = layout_run(
                    chars@.skip(i as int),
                    shaping@.skip(i as int),
                    line_height as int,
                    pen_x as int,
                    pen_y as int,
                );
                &&& glyphs@ + rest.glyphs == full.glyphs
                &&& rest.pen_x == full.pen_x
                &&& rest.pen_y == full.pen_y
            }),
        decreases chars@.len() - i,
    {
        proof {
            assert(chars@.skip(i as int)[0] == chars@[i as int]);
            assert(shaping@.skip(i as int)[0] == shaping@[i as int]);
            assert(chars@.skip(i as int).skip(1) =~= chars@.skip(i as int + 1));
            assert(shaping@.skip(i as int).skip(1) =~= shaping@.skip(i as int + 1));
        }
        let c = chars[i];
        if c == '\n' {
            proof {
                assert(pens_bounded(
                    chars@.skip(i as int + 1),
                    shaping@.skip(i as int + 1),
                    line_height as int,
                    0,
                    pen_y + line_height,
                    TEXT_EXTENT_LIMIT as int,
                ));
                assert(-TEXT_EXTENT_LIMIT <= pen_y + line_height <= TEXT_EXTENT_LIMIT);
            }
            pen_y = pen_y + line_height;
            pen_x = 0;
        } else {
            proof {
                assert(pens_bounded(
                    chars@.skip(i as int + 1),
                    shaping@.skip(i as int + 1),
                    line_height as int,
                    pen_x + shaping@[i as int].advance,
                    pen_y as int,
                    TEXT_EXTENT_LIMIT as int,
                ));
                assert(-TEXT_EXTENT_LIMIT <= pen_x + shaping@[i as int].advance
                    <= TEXT_EXTENT_LIMIT);
            }
            let ghost rest_before = layout_run(
                chars@.skip(i as int),
                shaping@.skip(i as int),
                line_height as int,
                pen_x as int,
                pen_y as int,
            );
            glyphs.push(Glyph { id: shaping[i].glyph_id, x: pen_x, y: pen_y });
            proof {
                let rest_after = layout_run(
                    chars@.skip(i as int + 1),
                    shaping@.skip(i as int + 1),
                    line_height as int,
                    pen_x + shaping@[i as int].advance,
                    pen_y as int,
                );
                assert(glyphs@ + rest_after.glyphs =~= glyphs@.drop_last() + rest_before.glyphs);
            }
            pen_x = pen_x + shaping[i].advance;
        }
        i = i + 1;
    }
    proof {
        assert(chars@.skip(chars@.len() as int).len() == 0);
        assert(glyphs@ + Seq::<Glyph>::empty() =~= glyphs@);
    }
    (glyphs, pen_x, pen_y)
}

/// Decide at run time whether the whole walk stays inside the layout
/// budget, and if so hand back the final pen position.
#[verifier::loop_isolation(false)]
pub fn check_layout_bounds(
    chars: &Vec<char>,
    shaping: &Vec<ShapedGlyph>,
    line_height: i64,
    start_x: i64,
    start_y: i64,
) -> (r: Option<(i64, i64)>)
    requires
        chars@.len() == shaping@.len(),
    ensures
        ({
            let bounded = pens_bounded(
                chars@,
                shaping@,
                line_height as int,
                start_x as int,
                start_y as int,
                TEXT_EXTENT_LIMIT as int,
            );
            match r {
                Some(p) => {
                    let m = layout_run(
                        chars@,
                        shaping@,
                        line_height as int,
                        start_x as int,
                        start_y as int,
                    );
                    &&& bounded
                    &&& p.0 == m.pen_x
                    &&& p.1 == m.pen_y
                },
                None => !bounded,
            }
        }),
{
    if start_x < -TEXT_EXTENT_LIMIT || start_x > TEXT_EXTENT_LIMIT || start_y < -TEXT_EXTENT_LIMIT
        || start_y > TEXT_EXTENT_LIMIT {
        proof {
            assert(!pens_bounded(
                chars@,
                shaping@,
                line_height as int,
                start_x as int,
                start_y as int,
                TEXT_EXTENT_LIMIT as int,
            ));
        }
        return None;
    }
    proof {
        assert(chars@.skip(0) =~= chars@);
        assert(shaping@.skip(0) =~= shaping@);
    }
    let mut pen_x: i64 = start_x;
    let mut pen_y: i64 = start_y;
    let mut i: usize = 0;
    while i < chars.len()
        invariant
            i <= chars@.len(),
            -TEXT_EXTENT_LIMIT <= pen_x <= TEXT_EXTENT_LIMIT,
            -TEXT_EXTENT_LIMIT <= pen_y <= TEXT_EXTENT_LIMIT,
            pens_bounded(
                chars@,
                shaping@,
                line_height as int,
                start_x as int,
                start_y as int,
                TEXT_EXTENT_LIMIT as int,
            ) == pens_bounded(
                chars@.skip(i as int),
                shaping@.skip(i as int),
                line_height as int,
                pen_x as int,
                pen_y as int,
                TEXT_EXTENT_LIMIT as int,
            ),
            ({
                let full = layout_run(
                    chars@,
                    shaping@,
                    line_height as int,
                    start_x as int,
                    start_y as int,
                );
                let rest = layout_run(
                    chars@.skip(i as int),
                    shaping@.skip(i as int),
                    line_height as int,
                    pen_x as int,
                    pen_y as int,
                );
                rest.pen_x == full.pen_x && rest.pen_y == full.pen_y
            }),
        decreases chars@.len() - i,
    {
        proof {
            assert(chars@.skip(i as int)[0] == chars@[i as int]);
            assert(shaping@.skip(i as int)[0] == shaping@[i as int]);
            assert(chars@.skip(i as int).skip(1) =~= chars@.skip(i as int + 1));
            assert(shaping@.skip(i as int).skip(1) =~= shaping@.skip(i as int + 1));
        }
        let c = chars[i];
        let next_x: i128;
        let next_y: i128;
        if c == '\n' {
            next_x = 0;
            next_y = pen_y as i128 + line_height as i128;
        } else {
            next_x = pen_x as i128 + shaping[i].advance as i128;
            next_y = pen_y as i128;
        }
        if next_x < -TEXT_EXTENT_LIMIT as i128 || next_x > TEXT_EXTENT_LIMIT as i128 || next_y
            < -TEXT_EXTENT_LIMIT as i128 || next_y > TEXT_EXTENT_LIMIT as i128 {
            proof {
                let nx: int = if chars@[i as int] == '\n' {
                    0
                } else {
                    pen_x + shaping@[i as int].advance
                };
                let ny: int = if chars@[i as int] == '\n' {
                    pen_y + line_height
                } else {
                    pen_y as int
                };
                assert(nx == next_x as int);
                assert(ny == next_y as int);
                assert(!pens_bounded(
                    chars@.skip(i as int + 1),
                    shaping@.skip(i as int + 1),
                    line_height as int,
                    nx,
                    ny,
                    TEXT_EXTENT_LIMIT as int,
                ));
                assert(!pens_bounded(
                    chars@.skip(i as int),
                    shaping@.skip(i as int),
                    line_height as int,
                    pen_x as int,
                    pen_y as int,
                    TEXT_EXTENT_LIMIT as int,
                ));
            }
            return None;
        }
        pen_x = next_x as i64;
        pen_y = next_y as i64;
        i = i + 1;
    }
    Some((pen_x, pen_y))
}

/// A walk whose pens stay in bounds ends with its pens in bounds.
pub proof fn lemma_layout_in_bounds(
    chars: Seq<char>,
    shaping: Seq<ShapedGlyph>,
    line_height: int,
    pen_x: int,
    pen_y: int,
    limit: int,
)
    requires
        pens_bounded(chars, shaping, line_height, pen_x, pen_y, limit),
    ensures
        -limit <= layout_run(chars, shaping, line_height, pen_x, pen_y).pen_x <= limit,
        -limit <= layout_run(chars, shaping, line_height, pen_x, pen_y).pen_y <= limit,
    decreases chars.len(),
{
    if chars.len() == 0 {
    } else if chars[0] == '\n' {
        lemma_layout_in_bounds(
            chars.skip(1),
            shaping.skip(1),
            line_height,
            0,
            pen_y + line_height,
            limit,
        );
    } else {
        lemma_layout_in_bounds(
            chars.skip(1),
            shaping.skip(1),
            line_height,
            pen_x + shaping[0].advance,
            pen_y,
            limit,
        );
    }
}

/// The corrective translation applied before the composed placement
/// transform: `Left` keeps the pen origin, `Center` shifts by half the
/// text width, `Right` by the full width; `Top` keeps it, `Middle`
/// shifts down by half the text height, `Bottom` by the full height.
pub open spec fn alignment_correction(
    alignment: Alignment,
    vertical_alignment: VerticalAlignment,
    text_width: int,
    text_height: int,
) -> Affine {
    Affine {
        a: 2,
        b: 0,
        c: 0,
        d: 2,
        e: (match alignment {
            Alignment::Left => 0int,
            Alignment::Center => -text_width,
            Alignment::Right => -2 * text_width,
        }) as i64,
        f: (match vertical_alignment {
            VerticalAlignment::Top => 0int,
            VerticalAlignment::Middle => text_height,
            VerticalAlignment::Bottom => 2 * text_height,
        }) as i64,
        den: 2,
    }
}

impl<T, F> Drawable<T, F> for ShapedText<F> {
    /// One shaping entry per character, metrics and every pen position
    /// inside the layout budget, and a budgeted placement transform.
    open spec fn can_draw(self, global: Affine) -> bool {
        let lh = line_height_of(self.metrics);
        let m = layout_run(self.base.text@, self.shaping@, lh, self.base.x as int, self.base.y as int);
        &&& self.shaping@.len() == self.base.text@.len()
        &&& self.base.transform.in_budget()
        &&& -TEXT_EXTENT_LIMIT <= self.metrics.ascent <= TEXT_EXTENT_LIMIT
        &&& -TEXT_EXTENT_LIMIT <= self.metrics.descent <= TEXT_EXTENT_LIMIT
        &&& -TEXT_EXTENT_LIMIT <= self.metrics.leading <= TEXT_EXTENT_LIMIT
        &&& pens_bounded(
            self.base.text@,
            self.shaping@,
            lh,
            self.base.x as int,
            self.base.y as int,
            TEXT_EXTENT_LIMIT as int,
        )
        &&& -TEXT_EXTENT_LIMIT <= m.pen_y + lh <= TEXT_EXTENT_LIMIT
    }

    open spec fn emitted(self, global: Affine) -> Seq<Command<T, F>> {
        let lh = line_height_of(self.metrics);
        let m = layout_run(self.base.text@, self.shaping@, lh, self.base.x as int, self.base.y as int);
        seq![
            Command::Glyphs(
                GlyphRun {
                    font: self.base.font,
                    size: self.base.size,
                    color: self.base.color,
                    text: self.base.text,
                    shaping: self.shaping,
                    line_height: lh as i64,
                    start_x: self.base.x,
                    start_y: self.base.y,
                    transform: compose_affine(
                        compose_affine(global, self.base.transform),
                        alignment_correction(
                            self.base.alignment,
                            self.base.vertical_alignment,
                            m.pen_x,
                            m.pen_y + lh,
                        ),
                    ),
                    glyph_transform: self.base.glyph_transform,
                },
            ),
        ]
    }

    fn check_can_draw(&self, global: &Affine) -> (ok: bool) {
        if self.shaping.len() != self.base.text.len() {
            return false;
        }
        if !self.base.transform.in_budget_check() {
            return false;
        }
        if self.metrics.ascent < -TEXT_EXTENT_LIMIT || self.metrics.ascent > TEXT_EXTENT_LIMIT
            || self.metrics.descent < -TEXT_EXTENT_LIMIT || self.metrics.descent
            > TEXT_EXTENT_LIMIT || self.metrics.leading < -TEXT_EXTENT_LIMIT
            || self.metrics.leading > TEXT_EXTENT_LIMIT {
            return false;
        }
        let lh: i64 = self.metrics.ascent - self.metrics.descent + self.metrics.leading;
        match check_layout_bounds(&self.base.text, &self.shaping, lh, self.base.x, self.base.y) {
            Some((_, final_y)) => {
                let height: i128 = final_y as i128 + lh as i128;
                -TEXT_EXTENT_LIMIT as i128 <= height && height <= TEXT_EXTENT_LIMIT as i128
            },
            None => false,
        }
    }

    fn draw(self, scene: &mut Scene<T, F>) {
        proof {
            lemma_layout_in_bounds(
                self.base.text@,
                self.shaping@,
                line_height_of(self.metrics),
                self.base.x as int,
                self.base.y as int,
                TEXT_EXTENT_LIMIT as int,
            );
        }
        let lh: i64 = self.metrics.ascent - self.metrics.descent + self.metrics.leading;
        let (_positioned, text_width, final_pen_y) = layout_glyphs(
            &self.base.text,
            &self.shaping,
            lh,
            self.base.x,
            self.base.y,
        );
        let text_height: i64 = final_pen_y + lh;
        let corr_e: i64 = match self.base.alignment {
            Alignment::Left => 0,
            Alignment::Center => -text_width,
            Alignment::Right => -2 * text_width,
        };
        let corr_f: i64 = match self.base.vertical_alignment {
            VerticalAlignment::Top => 0,
            VerticalAlignment::Middle => text_height,
            VerticalAlignment::Bottom => 2 * text_height,
        };
        let corr = Affine { a: 2, b: 0, c: 0, d: 2, e: corr_e, f: corr_f, den: 2 };
        proof {
            lemma_budget_compose_fits(scene.global_transform, self.base.transform);
        }
        let placed = scene.global_transform.compose(self.base.transform);
        proof {
            assert(model_bounded(corr@, 0x10_0000, 2));
            lemma_compose_fits(
                placed,
                corr,
                composed_coeff_bound(),
                composed_den_bound(),
                0x10_0000,
                2,
            );
        }
        let full = placed.compose(corr);
        let ShapedText { base, shaping, metrics: _ } = self;
        let FormatedText { font, size, color, glyph_transform, text, x, y, .. } = base;
        let run = GlyphRun {
            font,
            size,
            color,
            text,
            shaping,
            line_height: lh,
            start_x: x,
            start_y: y,
            transform: full,
            glyph_transform,
        };
        scene.push_plain(Command::Glyphs(run));
        proof {
            assert(scene.commands@ =~= old(scene).commands@ + self.emitted(
                old(scene).global_transform,
            ));
        }
    }
}

impl<F> GlyphRun<F> {
    /// Position this run's glyphs with the pen-advance walk: `None`
    /// exactly when the walk would leave the layout budget.
    pub fn positioned(&self) -> (r: Option<Vec<Glyph>>)
        requires
            self.text@.len() == self.shaping@.len(),
        ensures
            match r {
                Some(v) => {
                    &&& pens_bounded(
                        self.text@,
                        self.shaping@,
                        self.line_height as int,
                        self.start_x as int,
                        self.start_y as int,
                        TEXT_EXTENT_LIMIT as int,
                    )
                    &&& v@ == layout_run(
                        self.text@,
                        self.shaping@,
                        self.line_height as int,
                        self.start_x as int,
                        self.start_y as int,
                    ).glyphs
                },
                None => !pens_bounded(
                    self.text@,
                    self.shaping@,
                    self.line_height as int,
                    self.start_x as int,
                    self.start_y as int,
                    TEXT_EXTENT_LIMIT as int,
                ),
            },
    {
        match check_layout_bounds(&self.text, &self.shaping, self.line_height, self.start_x, self.start_y) {
            Some(_) => {
                let (glyphs, _, _) = layout_glyphs(
                    &self.text,
                    &self.shaping,
                    self.line_height,
                    self.start_x,
                    self.start_y,
                );
                Some(glyphs)
            },
            None => None,
        }
    }
}

} // verus!
