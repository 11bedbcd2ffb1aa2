//! Geometric objects: a shape, a style, a brush, an object transform,
//! and an independent brush transform.
//!
//! The brush transform maps shape-local space into brush space; it does
//! not follow the object transform, so a fill pattern can stay fixed
//! while the shape moves, or the other way around.

use vstd::prelude::*;
use crate::affine::Affine;
use crate::affine::compose_affine;
use crate::affine::lemma_abs_mul_le;
use crate::affine::lemma_budget_compose_fits;
use crate::brushes::Brush;
use crate::brushes::Image;
use crate::scalar::Scalar;
use crate::scalar::lemma_pos_mul_pos;
use crate::scenes::Command;
use crate::scenes::Drawable;
use crate::scenes::Scene;
use crate::shapes::IntoShape;
use crate::shapes::Point;
use crate::shapes::Rectangle;
use crate::styles::FillStyle;
use crate::styles::ImageFitMode;
use crate::styles::Style;

verus! {

/// Largest image dimension that stays inside the arithmetic budget of
/// the image-fit derivation.
pub const IMAGE_DIM_LIMIT: u32 = 16384;

/// A drawable geometric object.
#[derive(Clone, Debug)]
pub struct Geom<S, T> {
    pub style: Style,
    pub shape: S,
    pub brush: Brush<T>,
    /// Maps shape-local space into scene space; the scene's global
    /// transform is applied after it.
    pub transform: Affine,
    /// Maps shape-local space into brush space. `None` leaves brush
    /// space equal to the shape's local space (for gradients) or to the
    /// image's own pixel space (for textures).
    pub brush_transform: Option<Affine>,
}

impl<S: IntoShape, T, F> Drawable<T, F> for Geom<S, T> {
    /// The object transform stays inside the budget, and image-backed
    /// geometry is fill-only: stroking a texture is unsupported.
    open spec fn can_draw(self, global: Affine) -> bool {
        &&& self.transform.in_budget()
        &&& !(self.style is Stroke && self.brush is Texture)
    }

    open spec fn emitted(self, global: Affine) -> Seq<Command<T, F>> {
        match self.style {
            Style::Fill(style) => seq![
                Command::Fill {
                    shape: self.shape.shape(),
                    style,
                    brush: self.brush,
                    transform: compose_affine(global, self.transform),
                    brush_transform: self.brush_transform,
                },
            ],
            Style::Stroke(style) => seq![
                Command::Stroke {
                    shape: self.shape.shape(),
                    style,
                    brush: self.brush,
                    transform: compose_affine(global, self.transform),
                    brush_transform: self.brush_transform,
                },
            ],
        }
    }

    fn check_can_draw(&self, global: &Affine) -> (ok: bool) {
        let stroked_texture: bool = match (&self.style, &self.brush) {
            (Style::Stroke(_), Brush::Texture { .. }) => true,
            _ => false,
        };
        self.transform.in_budget_check() && !stroked_texture
    }

    fn draw(self, scene: &mut Scene<T, F>) {
        proof {
            lemma_budget_compose_fits(scene.global_transform, self.transform);
        }
        let transform = scene.global_transform.compose(self.transform);
        let Geom { style, shape, brush, transform: _, brush_transform } = self;
        let cmd: Command<T, F> = match style {
            Style::Fill(style) => Command::Fill {
                shape: shape.into_shape(),
                style,
                brush,
                transform,
                brush_transform,
            },
            Style::Stroke(style) => Command::Stroke {
                shape: shape.into_shape(),
                style,
                brush,
                transform,
                brush_transform,
            },
        };
        scene.push_plain(cmd);
        proof {
            assert(scene.commands@ =~= old(scene).commands@ + self.emitted(
                old(scene).global_transform,
            ));
        }
    }
}

/// The brush transform that the image-geometry constructor derives
/// under `Fill`: scale the image's pixel extent onto the target extent,
/// then re-center the brush origin onto the rectangle's top-left
/// corner. The translate must follow the scale, because brush space for
/// an image is anchored at the image's own origin, not at the shape's
/// center.
pub open spec fn fill_brush_transform(
    x: Scalar,
    y: Scalar,
    w: Scalar,
    h: Scalar,
    iw: int,
    ih: int,
) -> Affine {
    let dx = x.num * (2 * w.den) - w.num * x.den;
    let dy = y.num * (2 * h.den) - h.num * y.den;
    let k = y.den * h.den;
    let p = x.den * w.den;
    let i = iw * ih;
    Affine {
        a: (w.num * ((2 * x.den) * (k * ih))) as i64,
        b: 0,
        c: 0,
        d: (h.num * ((2 * y.den) * (p * iw))) as i64,
        e: (dx * (k * i)) as i64,
        f: (dy * (p * i)) as i64,
        den: ((2 * p) * (k * i)) as i64,
    }
}

/// Constructors shared by rectangular geometry.
pub trait GeomTrait<T>: Sized {
    /// A rectangle of the given center and extent, filled with the
    /// image. Under `Fill`, the brush transform stretches the image
    /// exactly onto the rectangle; under `Original`, brush space equals
    /// the image's own pixel space.
    fn new_image(
        image: Image<T>,
        x: Scalar,
        y: Scalar,
        width: Scalar,
        height: Scalar,
        transform: Affine,
        fit_mode: ImageFitMode,
    ) -> (g: Geom<Rectangle, T>)
        requires
            x.in_budget(),
            y.in_budget(),
            width.in_budget(),
            height.in_budget(),
            0 < image.width <= IMAGE_DIM_LIMIT,
            0 < image.height <= IMAGE_DIM_LIMIT,
            fit_mode is Original || fit_mode is Fill,
        ensures
            g.style == Style::Fill(FillStyle::NonZero),
            g.shape == (Rectangle {
                a: Point {
                    x: x.sub_spec(width.half_spec()),
                    y: y.sub_spec(height.half_spec()),
                },
                b: Point {
                    x: x.add_spec(width.half_spec()),
                    y: y.add_spec(height.half_spec()),
                },
            }),
            g.brush == (Brush::<T>::Texture {
                image,
                fit_mode,
                edge_mode: crate::brushes::Extend::Pad,
                offset: Point { x: Scalar { num: 0, den: 1 }, y: Scalar { num: 0, den: 1 } },
            }),
            g.transform == transform,
            fit_mode is Original ==> g.brush_transform is None,
            fit_mode is Fill ==> g.brush_transform == Some(
                fill_brush_transform(
                    x,
                    y,
                    width,
                    height,
                    image.width as int,
                    image.height as int,
                ),
            ),
    ;
}

impl<T> GeomTrait<T> for Geom<Rectangle, T> {
    fn new_image(
        image: Image<T>,
        x: Scalar,
        y: Scalar,
        width: Scalar,
        height: Scalar,
        transform: Affine,
        fit_mode: ImageFitMode,
    ) -> (g: Geom<Rectangle, T>) {
        proof {
            lemma_abs_mul_le(x.num as int, 2 * width.den, 0x10_0000, 32);
            lemma_abs_mul_le(width.num as int, x.den as int, 0x10_0000, 16);
            lemma_abs_mul_le(x.den as int, 2 * width.den, 16, 32);
            lemma_abs_mul_le(y.num as int, 2 * height.den, 0x10_0000, 32);
            lemma_abs_mul_le(height.num as int, y.den as int, 0x10_0000, 16);
            lemma_abs_mul_le(y.den as int, 2 * height.den, 16, 32);
        }
        let half_w = width.half();
        let half_h = height.half();
        let shape = Rectangle {
            a: Point { x: x.sub(half_w), y: y.sub(half_h) },
            b: Point { x: x.add(half_w), y: y.add(half_h) },
        };

        let iw: i64 = image.width as i64;
        let ih: i64 = image.height as i64;

        let brush_transform: Option<Affine> = match fit_mode {
            ImageFitMode::Original => None,
            ImageFitMode::Fill => {
                proof {
                    lemma_abs_mul_le(y.den as int, height.den as int, 16, 16);
                    lemma_abs_mul_le(x.den as int, width.den as int, 16, 16);
                    lemma_abs_mul_le(iw as int, ih as int, 16384, 16384);
                    lemma_abs_mul_le(y.den * height.den, ih as int, 256, 16384);
                    lemma_abs_mul_le(2 * x.den, (y.den * height.den) * ih, 32, 0x40_0000);
                    lemma_abs_mul_le(
                        width.num as int,
                        (2 * x.den) * ((y.den * height.den) * ih),
                        0x10_0000,
                        0x800_0000,
                    );
                    lemma_abs_mul_le(x.den * width.den, iw as int, 256, 16384);
                    lemma_abs_mul_le(2 * y.den, (x.den * width.den) * iw, 32, 0x40_0000);
                    lemma_abs_mul_le(
                        height.num as int,
                        (2 * y.den) * ((x.den * width.den) * iw),
                        0x10_0000,
                        0x800_0000,
                    );
                    lemma_abs_mul_le(y.den * height.den, iw * ih, 256, 0x1000_0000);
                    lemma_abs_mul_le(
                        x.num * (2 * width.den) - width.num * x.den,
                        (y.den * height.den) * (iw * ih),
                        0x400_0000,
                        0x10_0000_0000,
                    );
                    lemma_abs_mul_le(x.den * width.den, iw * ih, 256, 0x1000_0000);
                    lemma_abs_mul_le(
                        y.num * (2 * height.den) - height.num * y.den,
                        (x.den * width.den) * (iw * ih),
                        0x400_0000,
                        0x10_0000_0000,
                    );
                    lemma_abs_mul_le(
                        2 * (x.den * width.den),
                        (y.den * height.den) * (iw * ih),
                        512,
                        0x10_0000_0000,
                    );
                    lemma_pos_mul_pos(x.den as int, width.den as int);
                    lemma_pos_mul_pos(y.den as int, height.den as int);
                    lemma_pos_mul_pos(iw as int, ih as int);
                    lemma_pos_mul_pos(y.den * height.den, iw * ih);
                    lemma_pos_mul_pos(2 * (x.den * width.den), (y.den * height.den) * (iw * ih));
                }
                let dx1: i64 = x.num * (2 * width.den);
                let dx2: i64 = width.num * x.den;
                let dx: i64 = dx1 - dx2;
                let dy1: i64 = y.num * (2 * height.den);
                let dy2: i64 = height.num * y.den;
                let dy: i64 = dy1 - dy2;
                let k: i64 = y.den * height.den;
                let p: i64 = x.den * width.den;
                let i_prod: i64 = iw * ih;
                let a_coef: i64 = width.num * ((2 * x.den) * (k * ih));
                let d_coef: i64 = height.num * ((2 * y.den) * (p * iw));
                let k_i: i64 = k * i_prod;
                let e_coef: i64 = dx * k_i;
                let p_i: i64 = p * i_prod;
                let f_coef: i64 = dy * p_i;
                let den_all: i64 = (2 * p) * k_i;
                Some(
                    Affine {
                        a: a_coef,
                        b: 0,
                        c: 0,
                        d: d_coef,
                        e: e_coef,
                        f: f_coef,
                        den: den_all,
                    },
                )
            },
            ImageFitMode::Exact { .. } => {
                proof {
                    assert(false);
                }
                None
            },
        };

        let brush = Brush::Texture {
            image,
            fit_mode,
            edge_mode: crate::brushes::Extend::Pad,
            offset: Point { x: Scalar { num: 0, den: 1 }, y: Scalar { num: 0, den: 1 } },
        };

        Geom { style: Style::Fill(FillStyle::NonZero), shape, brush, transform, brush_transform }
    }
}

/// Small reassociation toolkit, derived from the standard
/// multiplication lemmas so the default solver can chain them.
proof fn lemma_mul_comm(a: int, b: int)
    ensures
        a * b == b * a,
{
    vstd::arithmetic::mul::lemma_mul_is_commutative(a, b);
}

/// Swap the middle factors of a four-way product.
proof fn lemma_mul4_swap_middle(a: int, b: int, c: int, d: int)
    ensures
        (a * b) * (c * d) == (a * c) * (b * d),
{
    vstd::arithmetic::mul::lemma_mul_is_associative(a, b, c * d);
    vstd::arithmetic::mul::lemma_mul_is_associative(b, c, d);
    lemma_mul_comm(b, c);
    vstd::arithmetic::mul::lemma_mul_is_associative(c, b, d);
    vstd::arithmetic::mul::lemma_mul_is_associative(a, c, b * d);
}

/// Pull a factor of two to the front of a product.
proof fn lemma_pull_two(u: int, v: int)
    ensures
        u * (2 * v) == 2 * (u * v),
{
    vstd::arithmetic::mul::lemma_mul_is_associative(u, 2, v);
    lemma_mul_comm(u, 2);
    vstd::arithmetic::mul::lemma_mul_is_associative(2, u, v);
}

/// Exchange the trailing factors across a product of products.
proof fn lemma_mul_cross(d: int, beta: int, g: int, h: int)
    ensures
        (d * beta) * (g * h) == (d * h) * (g * beta),
{
    lemma_mul_comm(g, h);
    lemma_mul4_swap_middle(d, beta, h, g);
    lemma_mul_comm(beta, g);
}

/// Gather a doubled factor: `wn * ((2*xd) * beta) == (2*(wn*xd)) * beta`.
proof fn lemma_mul_gather(wn: int, xd: int, beta: int)
    ensures
        wn * ((2 * xd) * beta) == (2 * (wn * xd)) * beta,
{
    vstd::arithmetic::mul::lemma_mul_is_associative(wn, 2 * xd, beta);
    lemma_pull_two(wn, xd);
}

/// The top-left corner identity of the fill brush transform, per
/// coordinate axis: `d` stands for either corner numerator.
proof fn lemma_fill_corner_origin(d: int, xd: int, wd: int, yd: int, hd: int, iw: int, ih: int)
    ensures
        (d * ((yd * hd) * (iw * ih))) * ((xd * (2 * wd)) * (yd * (2 * hd))) == (d * (yd * (2 * hd)))
            * ((2 * (xd * wd)) * ((yd * hd) * (iw * ih))),
        (d * ((xd * wd) * (iw * ih))) * ((xd * (2 * wd)) * (yd * (2 * hd))) == (d * (xd * (2 * wd)))
            * ((2 * (xd * wd)) * ((yd * hd) * (iw * ih))),
{
    let k = yd * hd;
    let i = iw * ih;
    let beta = k * i;
    let beta2 = (xd * wd) * i;
    let g = xd * (2 * wd);
    let h = yd * (2 * hd);
    // First axis: move the denominators across and identify g with
    // 2*(xd*wd).
    lemma_mul_cross(d, beta, g, h);
    lemma_pull_two(xd, wd);
    // Second axis: swap, then regroup beta2 * h into (2*(xd*wd)) * beta.
    lemma_mul4_swap_middle(d, beta2, g, h);
    lemma_pull_two(yd, hd);
    assert(beta2 * h == (xd * wd) * (i * (2 * k))) by {
        vstd::arithmetic::mul::lemma_mul_is_associative(xd * wd, i, 2 * k);
    }
    assert((xd * wd) * (i * (2 * k)) == (xd * wd) * (2 * (i * k))) by {
        lemma_pull_two(i, k);
    }
    assert((xd * wd) * (2 * (i * k)) == (2 * ((xd * wd) * (i * k)))) by {
        lemma_pull_two(xd * wd, i * k);
    }
    assert((2 * ((xd * wd) * (i * k))) == 2 * (((xd * wd) * i) * k)) by {
        vstd::arithmetic::mul::lemma_mul_is_associative(xd * wd, i, k);
    }
    // Finally relate 2 * (beta2 * k) with (2*(xd*wd)) * beta.
    assert(2 * (beta2 * k) == (2 * (xd * wd)) * beta) by {
        lemma_mul_comm(beta2, k);
        vstd::arithmetic::mul::lemma_mul_is_associative(k, xd * wd, i);
        lemma_mul_comm(k, xd * wd);
        vstd::arithmetic::mul::lemma_mul_is_associative(xd * wd, k, i);
        vstd::arithmetic::mul::lemma_mul_is_associative(2, xd * wd, beta);
    }
}

/// The bottom-right corner identity of the fill brush transform, first
/// coordinate axis.
proof fn lemma_fill_corner_far_x(
    xn: int,
    xd: int,
    wn: int,
    wd: int,
    yd: int,
    hd: int,
    iw: int,
    ih: int,
)
    ensures
        ((wn * ((2 * xd) * ((yd * hd) * ih))) * iw + ((xn * (2 * wd) - wn * xd) * ((yd * hd) * (iw
            * ih))) * 1) * ((xd * (2 * wd)) * (yd * (2 * hd))) == ((xn * (2 * wd) + wn * xd) * (yd
            * (2 * hd))) * (((2 * (xd * wd)) * ((yd * hd) * (iw * ih))) * 1),
{
    let k = yd * hd;
    let i = iw * ih;
    let beta = k * i;
    let g = xd * (2 * wd);
    let h = yd * (2 * hd);
    let p2 = 2 * (xd * wd);
    let dx = xn * (2 * wd) - wn * xd;
    let s = xn * (2 * wd) + wn * xd;
    let a_part = wn * ((2 * xd) * (k * ih));
    // a_part * iw == (2 * (wn * xd)) * beta.
    assert(a_part * iw == wn * (((2 * xd) * (k * ih)) * iw)) by {
        vstd::arithmetic::mul::lemma_mul_is_associative(wn, (2 * xd) * (k * ih), iw);
    }
    assert(((2 * xd) * (k * ih)) * iw == (2 * xd) * ((k * ih) * iw)) by {
        vstd::arithmetic::mul::lemma_mul_is_associative(2 * xd, k * ih, iw);
    }
    assert((k * ih) * iw == k * (ih * iw)) by {
        vstd::arithmetic::mul::lemma_mul_is_associative(k, ih, iw);
    }
    assert(ih * iw == iw * ih) by {
        lemma_mul_comm(ih, iw);
    }
    assert(a_part * iw == wn * ((2 * xd) * beta));
    lemma_mul_gather(wn, xd, beta);
    assert(a_part * iw == (2 * (wn * xd)) * beta);
    // Distribute the left-hand product over the sum.
    lemma_sum2_scale_local(a_part * iw, dx * beta, g * h);
    // Each summand crosses over as in the origin identity.
    lemma_mul_cross(2 * (wn * xd), beta, g, h);
    lemma_mul_cross(dx, beta, g, h);
    lemma_pull_two(xd, wd);
    // Recombine: (2*(wn*xd)) * h + dx * h == s * h.
    lemma_sum2_scale_local(2 * (wn * xd), dx, h);
    assert(2 * (wn * xd) + dx == s) by {
        lemma_pull_two(wn, xd);
        assert(wn * (2 * xd) == 2 * (wn * xd));
    }
    lemma_sum2_scale_local((2 * (wn * xd)) * h, dx * h, p2 * beta);
}

/// The bottom-right corner identity of the fill brush transform,
/// second coordinate axis.
proof fn lemma_fill_corner_far_y(
    yn: int,
    xd: int,
    wd: int,
    yd: int,
    hn: int,
    hd: int,
    iw: int,
    ih: int,
)
    ensures
        ((hn * ((2 * yd) * ((xd * wd) * iw))) * ih + ((yn * (2 * hd) - hn * yd) * ((xd * wd) * (iw
            * ih))) * 1) * ((xd * (2 * wd)) * (yd * (2 * hd))) == ((yn * (2 * hd) + hn * yd) * (xd
            * (2 * wd))) * (((2 * (xd * wd)) * ((yd * hd) * (iw * ih))) * 1),
{
    let k = yd * hd;
    let i = iw * ih;
    let beta = k * i;
    let beta2 = (xd * wd) * i;
    let g = xd * (2 * wd);
    let h = yd * (2 * hd);
    let p2 = 2 * (xd * wd);
    let dy = yn * (2 * hd) - hn * yd;
    let s = yn * (2 * hd) + hn * yd;
    let a_part = hn * ((2 * yd) * ((xd * wd) * iw));
    // a_part * ih == (2 * (hn * yd)) * beta2.
    assert(a_part * ih == hn * (((2 * yd) * ((xd * wd) * iw)) * ih)) by {
        vstd::arithmetic::mul::lemma_mul_is_associative(hn, (2 * yd) * ((xd * wd) * iw), ih);
    }
    assert(((2 * yd) * ((xd * wd) * iw)) * ih == (2 * yd) * (((xd * wd) * iw) * ih)) by {
        vstd::arithmetic::mul::lemma_mul_is_associative(2 * yd, (xd * wd) * iw, ih);
    }
    assert(((xd * wd) * iw) * ih == (xd * wd) * (iw * ih)) by {
        vstd::arithmetic::mul::lemma_mul_is_associative(xd * wd, iw, ih);
    }
    assert(a_part * ih == hn * ((2 * yd) * beta2));
    lemma_mul_gather(hn, yd, beta2);
    assert(a_part * ih == (2 * (hn * yd)) * beta2);
    // Distribute over the sum.
    lemma_sum2_scale_local(a_part * ih, dy * beta2, g * h);
    // Each summand regroups as in the origin identity's second axis.
    lemma_fill_corner_origin(2 * (hn * yd), xd, wd, yd, hd, iw, ih);
    lemma_fill_corner_origin(dy, xd, wd, yd, hd, iw, ih);
    // Recombine: (2*(hn*yd)) * g + dy * g == s * g.
    lemma_sum2_scale_local(2 * (hn * yd), dy, g);
    assert(2 * (hn * yd) + dy == s) by {
        lemma_pull_two(hn, yd);
        assert(hn * (2 * yd) == 2 * (hn * yd));
    }
    lemma_sum2_scale_local((2 * (hn * yd)) * g, dy * g, p2 * beta);
}

/// A two-term sum distributes over a common factor.
proof fn lemma_sum2_scale_local(a: int, b: int, x: int)
    ensures
        (a + b) * x == a * x + b * x,
{
    vstd::arithmetic::mul::lemma_mul_is_distributive_add_other_way(x, a, b);
}

/// The midpoint of the two derived corner coordinates is the requested
/// center coordinate.
proof fn lemma_fill_center(xn: int, xd: int, wn: int, wd: int)
    by (nonlinear_arith)
    ensures
        ((xn * (2 * wd) - wn * xd) * (xd * (2 * wd)) + (xn * (2 * wd) + wn * xd) * (xd * (2 * wd)))
            * xd == xn * (2 * ((xd * (2 * wd)) * (xd * (2 * wd)))),
{
}

/// The difference of the two derived corner coordinates is the
/// requested extent.
proof fn lemma_fill_extent(xn: int, xd: int, wn: int, wd: int)
    by (nonlinear_arith)
    ensures
        ((xn * (2 * wd) + wn * xd) * (xd * (2 * wd)) - (xn * (2 * wd) - wn * xd) * (xd * (2 * wd)))
            * wd == wn * ((xd * (2 * wd)) * (xd * (2 * wd))),
{
}

/// The bounds that keep every coefficient of the fill brush transform,
/// and the derived corner scalars, inside `i64`.
proof fn lemma_fill_bounds(x: Scalar, y: Scalar, w: Scalar, h: Scalar, iw: int, ih: int)
    requires
        x.in_budget(),
        y.in_budget(),
        w.in_budget(),
        h.in_budget(),
        0 < iw <= IMAGE_DIM_LIMIT,
        0 < ih <= IMAGE_DIM_LIMIT,
    ensures
        ({
            let dx = x.num * (2 * w.den) - w.num * x.den;
            let dy = y.num * (2 * h.den) - h.num * y.den;
            let k = y.den * h.den;
            let p = x.den * w.den;
            let i = iw * ih;
            &&& -0x400_0000 <= dx <= 0x400_0000
            &&& -0x400_0000 <= dy <= 0x400_0000
            &&& 0 < k <= 256
            &&& 0 < p <= 256
            &&& 0 < i <= 0x1000_0000
            &&& crate::scalar::fits_i64(w.num * ((2 * x.den) * (k * ih)))
            &&& crate::scalar::fits_i64(h.num * ((2 * y.den) * (p * iw)))
            &&& crate::scalar::fits_i64(dx * (k * i))
            &&& crate::scalar::fits_i64(dy * (p * i))
            &&& 0 < (2 * p) * (k * i) <= i64::MAX
        }),
{
    lemma_abs_mul_le(x.num as int, 2 * w.den, 0x10_0000, 32);
    lemma_abs_mul_le(w.num as int, x.den as int, 0x10_0000, 16);
    lemma_abs_mul_le(y.num as int, 2 * h.den, 0x10_0000, 32);
    lemma_abs_mul_le(h.num as int, y.den as int, 0x10_0000, 16);
    lemma_abs_mul_le(y.den as int, h.den as int, 16, 16);
    lemma_abs_mul_le(x.den as int, w.den as int, 16, 16);
    lemma_abs_mul_le(iw, ih, 16384, 16384);
    lemma_abs_mul_le(y.den * h.den, ih, 256, 16384);
    lemma_abs_mul_le(2 * x.den, (y.den * h.den) * ih, 32, 0x40_0000);
    lemma_abs_mul_le(w.num as int, (2 * x.den) * ((y.den * h.den) * ih), 0x10_0000, 0x800_0000);
    lemma_abs_mul_le(x.den * w.den, iw, 256, 16384);
    lemma_abs_mul_le(2 * y.den, (x.den * w.den) * iw, 32, 0x40_0000);
    lemma_abs_mul_le(h.num as int, (2 * y.den) * ((x.den * w.den) * iw), 0x10_0000, 0x800_0000);
    lemma_abs_mul_le(y.den * h.den, iw * ih, 256, 0x1000_0000);
    lemma_abs_mul_le(
        x.num * (2 * w.den) - w.num * x.den,
        (y.den * h.den) * (iw * ih),
        0x400_0000,
        0x10_0000_0000,
    );
    lemma_abs_mul_le(x.den * w.den, iw * ih, 256, 0x1000_0000);
    lemma_abs_mul_le(
        y.num * (2 * h.den) - h.num * y.den,
        (x.den * w.den) * (iw * ih),
        0x400_0000,
        0x10_0000_0000,
    );
    lemma_abs_mul_le(2 * (x.den * w.den), (y.den * h.den) * (iw * ih), 512, 0x10_0000_0000);
    lemma_pos_mul_pos(x.den as int, w.den as int);
    lemma_pos_mul_pos(y.den as int, h.den as int);
    lemma_pos_mul_pos(iw, ih);
    lemma_pos_mul_pos(y.den * h.den, iw * ih);
    lemma_pos_mul_pos(2 * (x.den * w.den), (y.den * h.den) * (iw * ih));
}

/// Image-geometry construction under `Fill` hits its target exactly:
/// the derived rectangle is centered at the requested `(x, y)` with
/// exactly the requested extent, and the derived brush transform lands
/// the image's corner pixels `(0, 0)` and `(iw, ih)` exactly on the
/// rectangle's two corners, whatever the image's aspect ratio.
pub proof fn lemma_image_fill_geometry(x: Scalar, y: Scalar, w: Scalar, h: Scalar, iw: int, ih: int)
    requires
        x.in_budget(),
        y.in_budget(),
        w.in_budget(),
        h.in_budget(),
        0 < iw <= IMAGE_DIM_LIMIT,
        0 < ih <= IMAGE_DIM_LIMIT,
    ensures
        ({
            let m = fill_brush_transform(x, y, w, h, iw, ih);
            let a_corner = Point { x: x.sub_spec(w.half_spec()), y: y.sub_spec(h.half_spec()) };
            let b_corner = Point { x: x.add_spec(w.half_spec()), y: y.add_spec(h.half_spec()) };
            &&& crate::affine::point_same_value(
                crate::affine::apply_model(
                    m@,
                    crate::affine::PointModel { x: 0, y: 0, w: 1 },
                ),
                crate::shapes::point_model(a_corner),
            )
            &&& crate::affine::point_same_value(
                crate::affine::apply_model(
                    m@,
                    crate::affine::PointModel { x: iw, y: ih, w: 1 },
                ),
                crate::shapes::point_model(b_corner),
            )
            &&& a_corner.x.add_spec(b_corner.x).half_spec().same_value(x)
            &&& a_corner.y.add_spec(b_corner.y).half_spec().same_value(y)
            &&& b_corner.x.sub_spec(a_corner.x).same_value(w)
            &&& b_corner.y.sub_spec(a_corner.y).same_value(h)
        }),
{
    lemma_fill_bounds(x, y, w, h, iw, ih);
    lemma_abs_mul_le(x.den as int, 2 * w.den, 16, 32);
    lemma_abs_mul_le(y.den as int, 2 * h.den, 16, 32);
    lemma_abs_mul_le(x.num as int, 2 * w.den, 0x10_0000, 32);
    lemma_abs_mul_le(w.num as int, x.den as int, 0x10_0000, 16);
    lemma_abs_mul_le(y.num as int, 2 * h.den, 0x10_0000, 32);
    lemma_abs_mul_le(h.num as int, y.den as int, 0x10_0000, 16);
    let dx = x.num * (2 * w.den) - w.num * x.den;
    let dy = y.num * (2 * h.den) - h.num * y.den;
    let k = y.den * h.den;
    let p = x.den * w.den;
    let i = iw * ih;
    let m = fill_brush_transform(x, y, w, h, iw, ih);
    assert(m.a == w.num * ((2 * x.den) * (k * ih)));
    assert(m.d == h.num * ((2 * y.den) * (p * iw)));
    assert(m.e == dx * (k * i));
    assert(m.f == dy * (p * i));
    assert(m.den == (2 * p) * (k * i));
    let ga = x.den * (2 * w.den);
    let gb = y.den * (2 * h.den);
    let a_corner = Point { x: x.sub_spec(w.half_spec()), y: y.sub_spec(h.half_spec()) };
    let b_corner = Point { x: x.add_spec(w.half_spec()), y: y.add_spec(h.half_spec()) };
    assert(a_corner.x.num == dx);
    assert(a_corner.x.den == ga);
    assert(a_corner.y.num == dy);
    assert(a_corner.y.den == gb);
    assert(b_corner.x.num == x.num * (2 * w.den) + w.num * x.den);
    assert(b_corner.x.den == ga);
    assert(b_corner.y.num == y.num * (2 * h.den) + h.num * y.den);
    assert(b_corner.y.den == gb);
    lemma_abs_mul_le(ga, ga, 512, 512);
    lemma_abs_mul_le(gb, gb, 512, 512);
    lemma_abs_mul_le(a_corner.x.num as int, ga, 0x400_0000, 512);
    lemma_abs_mul_le(b_corner.x.num as int, ga, 0x400_0000, 512);
    lemma_abs_mul_le(a_corner.y.num as int, gb, 0x400_0000, 512);
    lemma_abs_mul_le(b_corner.y.num as int, gb, 0x400_0000, 512);
    lemma_fill_corner_origin(dx, x.den as int, w.den as int, y.den as int, h.den as int, iw, ih);
    lemma_fill_corner_origin(dy, x.den as int, w.den as int, y.den as int, h.den as int, iw, ih);
    lemma_fill_corner_far_x(
        x.num as int,
        x.den as int,
        w.num as int,
        w.den as int,
        y.den as int,
        h.den as int,
        iw,
        ih,
    );
    lemma_fill_corner_far_y(
        y.num as int,
        x.den as int,
        w.den as int,
        y.den as int,
        h.num as int,
        h.den as int,
        iw,
        ih,
    );
    lemma_fill_center(x.num as int, x.den as int, w.num as int, w.den as int);
    lemma_fill_center(y.num as int, y.den as int, h.num as int, h.den as int);
    lemma_fill_extent(x.num as int, x.den as int, w.num as int, w.den as int);
    lemma_fill_extent(y.num as int, y.den as int, h.num as int, h.den as int);
}

} // verus!
