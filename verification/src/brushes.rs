//! Brushes: what fills a shape, decoupled from where the shape lies.
//!
//! A brush is a solid color, a multi-stop gradient, or an image texture.
//! Gradients can be encoded into a flat word stream and decoded back;
//! decoding an encoding is proved lossless for stop order, offsets and
//! colors.

use vstd::prelude::*;
use crate::colors::RGBA;
use crate::scalar::Scalar;
use crate::shapes::Point;
use crate::styles::ImageFitMode;

verus! {

/// An immutable raster image: an opaque pixel payload plus its
/// dimensions. The payload type is the application's choice (typically a
/// reference-counted byte buffer), so clones share the pixels.
#[derive(Clone, Debug)]
pub struct Image<T> {
    pub data: T,
    pub width: u32,
    pub height: u32,
}

/// What fills a shape.
#[derive(Clone, Debug)]
pub enum Brush<T> {
    /// A single color.
    Solid(RGBA),
    /// A multi-stop gradient.
    Gradient(Gradient),
    /// An image texture; its placement is carried by the geometry's
    /// brush transform.
    Texture { image: Image<T>, fit_mode: ImageFitMode, edge_mode: Extend, offset: Point },
}

/// How a gradient or image is sampled outside its defined domain.
#[derive(Clone, Copy, Debug, PartialEq, Eq, Structural)]
pub enum Extend {
    /// Repeat the edge color.
    Pad,
    /// Repeat the brush.
    Repeat,
    /// Reflect the brush.
    Reflect,
}

/// One gradient stop.
#[derive(Clone, Copy, Debug, PartialEq, Eq, Structural)]
pub struct ColorStop {
    /// Normalized offset of the stop within the gradient's domain.
    pub offset: Scalar,
    /// Color at that offset.
    pub color: RGBA,
}

/// The geometry of a gradient.
#[derive(Clone, Copy, Debug, PartialEq, Eq, Structural)]
pub enum GradientKind {
    /// Transitions along the line from `start` to `end`.
    Linear { start: Point, end: Point },
    /// Transitions between two circles.
    Radial { start_center: Point, start_radius: Scalar, end_center: Point, end_radius: Scalar },
    /// Rotates around a center point between two angles.
    Sweep { center: Point, start_angle: Scalar, end_angle: Scalar },
}

/// A multi-stop gradient.
#[derive(Clone, Debug)]
pub struct Gradient {
    pub extend: Extend,
    pub kind: GradientKind,
    pub stops: Vec<ColorStop>,
}

/// Every scalar inside the kind is well formed.
pub open spec fn kind_wf(k: GradientKind) -> bool {
    match k {
        GradientKind::Linear { start, end } => start.wf() && end.wf(),
        GradientKind::Radial { start_center, start_radius, end_center, end_radius } => {
            start_center.wf() && start_radius.wf() && end_center.wf() && end_radius.wf()
        },
        GradientKind::Sweep { center, start_angle, end_angle } => {
            center.wf() && start_angle.wf() && end_angle.wf()
        },
    }
}

/// Every scalar inside the gradient is well formed.
pub open spec fn gradient_wf(g: Gradient) -> bool {
    &&& kind_wf(g.kind)
    &&& forall|i: int| 0 <= i < g.stops@.len() ==> (#[trigger] g.stops@[i]).offset.wf()
}

impl Gradient {
    /// The canonical gradient constructor: `N` colors become `N` stops
    /// at offsets `0, 1/(N-1), 2/(N-1), ..., 1`, in input order.
    pub fn new_equidistant(extend: Extend, kind: GradientKind, colors: &[RGBA]) -> (g: Gradient)
        requires
            colors@.len() >= 2,
            colors@.len() <= i64::MAX,
        ensures
            g.extend == extend,
            g.kind == kind,
            g.stops@.len() == colors@.len(),
            forall|i: int|
                0 <= i < colors@.len() ==> (#[trigger] g.stops@[i]) == (ColorStop {
                    offset: Scalar { num: i as i64, den: (colors@.len() - 1) as i64 },
                    color: colors@[i],
                }),
            forall|i: int, j: int|
                0 <= i < j < colors@.len() ==> (#[trigger] g.stops@[i].offset).lt(
                    #[trigger] g.stops@[j].offset,
                ),
            gradient_wf(g) <==> kind_wf(kind),
    {
        let n: usize = colors.len();
        let den: i64 = (n - 1) as i64;
        let mut stops: Vec<ColorStop> = Vec::new();
        let mut i: usize = 0;
        while i < n
            invariant
                i <= n,
                n == colors@.len(),
                2 <= n <= i64::MAX,
                den == n - 1,
                stops@.len() == i,
                forall|k: int|
                    0 <= k < i ==> (#[trigger] stops@[k]) == (ColorStop {
                        offset: Scalar { num: k as i64, den: (n - 1) as i64 },
                        color: colors@[k],
                    }),
            decreases n - i,
        {
            stops.push(ColorStop { offset: Scalar { num: i as i64, den }, color: colors[i] });
            i = i + 1;
        }
        let g = Gradient { extend, kind, stops };
        proof {
            assert forall|i: int, j: int| 0 <= i < j < colors@.len() implies (
            #[trigger] g.stops@[i].offset).lt(#[trigger] g.stops@[j].offset) by {
                vstd::arithmetic::mul::lemma_mul_strict_inequality(i, j, den as int);
            }
        }
        g
    }
}

// ---------------------------------------------------------------------
// Gradient serialization: a gradient as a flat stream of `i64` words.
// ---------------------------------------------------------------------

/// The word that encodes an extend mode.
pub open spec fn extend_word(e: Extend) -> i64 {
    match e {
        Extend::Pad => 0i64,
        Extend::Repeat => 1i64,
        Extend::Reflect => 2i64,
    }
}

/// The extend mode a word decodes to, if any.
pub open spec fn parse_extend(w: i64) -> Option<Extend> {
    if w == 0 {
        Some(Extend::Pad)
    } else if w == 1 {
        Some(Extend::Repeat)
    } else if w == 2 {
        Some(Extend::Reflect)
    } else {
        None
    }
}

/// The words that encode a scalar.
pub open spec fn scalar_words(s: Scalar) -> Seq<i64> {
    seq![s.num, s.den]
}

/// The words that encode a point.
pub open spec fn point_words(p: Point) -> Seq<i64> {
    scalar_words(p.x) + scalar_words(p.y)
}

/// The words that encode a color.
pub open spec fn color_words(c: RGBA) -> Seq<i64> {
    seq![c.r as i64, c.g as i64, c.b as i64, c.a as i64]
}

/// The words that encode a gradient kind.
pub open spec fn kind_words(k: GradientKind) -> Seq<i64> {
    match k {
        GradientKind::Linear { start, end } => seq![0i64] + point_words(start) + point_words(end),
        GradientKind::Radial { start_center, start_radius, end_center, end_radius } => {
            seq![1i64] + point_words(start_center) + scalar_words(start_radius) + point_words(
                end_center,
            ) + scalar_words(end_radius)
        },
        GradientKind::Sweep { center, start_angle, end_angle } => {
            seq![2i64] + point_words(center) + scalar_words(start_angle) + scalar_words(end_angle)
        },
    }
}

/// The words that encode one stop.
pub open spec fn stop_words(s: ColorStop) -> Seq<i64> {
    scalar_words(s.offset) + color_words(s.color)
}

/// The words that encode a stop list, in order.
pub open spec fn stops_words(stops: Seq<ColorStop>) -> Seq<i64>
    decreases stops.len(),
{
    if stops.len() == 0 {
        Seq::empty()
    } else {
        stop_words(stops[0]) + stops_words(stops.skip(1))
    }
}

/// The words that encode a whole gradient: extend mode, kind, stop
/// count, then the stops.
pub open spec fn gradient_words(g: Gradient) -> Seq<i64> {
    seq![extend_word(g.extend)] + kind_words(g.kind) + seq![g.stops@.len() as i64] + stops_words(
        g.stops@,
    )
}

/// The scalar at the front of `d`, if the words there form one.
pub open spec fn parse_scalar(d: Seq<i64>) -> Option<(Scalar, Seq<i64>)> {
    if d.len() >= 2 && d[1] > 0 {
        Some((Scalar { num: d[0], den: d[1] }, d.skip(2)))
    } else {
        None
    }
}

/// The point at the front of `d`, if the words there form one.
pub open spec fn parse_point(d: Seq<i64>) -> Option<(Point, Seq<i64>)> {
    match parse_scalar(d) {
        Some((x, r)) => match parse_scalar(r) {
            Some((y, r2)) => Some((Point { x, y }, r2)),
            None => None,
        },
        None => None,
    }
}

/// The color at the front of `d`, if the words there form one.
pub open spec fn parse_color(d: Seq<i64>) -> Option<(RGBA, Seq<i64>)> {
    if d.len() >= 4 && 0 <= d[0] <= 255 && 0 <= d[1] <= 255 && 0 <= d[2] <= 255 && 0 <= d[3]
        <= 255 {
        Some((RGBA { r: d[0] as u8, g: d[1] as u8, b: d[2] as u8, a: d[3] as u8 }, d.skip(4)))
    } else {
        None
    }
}

/// The gradient kind at the front of `d`, if the words there form one.
pub open spec fn parse_kind(d: Seq<i64>) -> Option<(GradientKind, Seq<i64>)> {
    if d.len() < 1 {
        None
    } else if d[0] == 0 {
        match parse_point(d.skip(1)) {
            Some((start, r)) => match parse_point(r) {
                Some((end, r2)) => Some((GradientKind::Linear { start, end }, r2)),
                None => None,
            },
            None => None,
        }
    } else if d[0] == 1 {
        match parse_point(d.skip(1)) {
            Some((start_center, r)) => match parse_scalar(r) {
                Some((start_radius, r2)) => match parse_point(r2) {
                    Some((end_center, r3)) => match parse_scalar(r3) {
                        Some((end_radius, r4)) => Some(
                            (
                                GradientKind::Radial {
                                    start_center,
                                    start_radius,
                                    end_center,
                                    end_radius,
                                },
                                r4,
                            ),
                        ),
                        None => None,
                    },
                    None => None,
                },
                None => None,
            },
            None => None,
        }
    } else if d[0] == 2 {
        match parse_point(d.skip(1)) {
            Some((center, r)) => match parse_scalar(r) {
                Some((start_angle, r2)) => match parse_scalar(r2) {
                    Some((end_angle, r3)) => Some(
                        (GradientKind::Sweep { center, start_angle, end_angle }, r3),
                    ),
                    None => None,
                },
                None => None,
            },
            None => None,
        }
    } else {
        None
    }
}

/// The stop at the front of `d`, if the words there form one.
pub open spec fn parse_stop(d: Seq<i64>) -> Option<(ColorStop, Seq<i64>)> {
    match parse_scalar(d) {
        Some((offset, r)) => match parse_color(r) {
            Some((color, r2)) => Some((ColorStop { offset, color }, r2)),
            None => None,
        },
        None => None,
    }
}

/// The `n` stops at the front of `d`, if the words there form them.
pub open spec fn parse_stops(d: Seq<i64>, n: nat) -> Option<(Seq<ColorStop>, Seq<i64>)>
    decreases n,
{
    if n == 0 {
        Some((Seq::empty(), d))
    } else {
        match parse_stop(d) {
            Some((s, r)) => match parse_stops(r, (n - 1) as nat) {
                Some((ss, r2)) => Some((seq![s] + ss, r2)),
                None => None,
            },
            None => None,
        }
    }
}

/// The gradient a word stream decodes to, if it is a valid encoding
/// with nothing trailing.
pub open spec fn decode_words(d: Seq<i64>) -> Option<(Extend, GradientKind, Seq<ColorStop>)> {
    if d.len() < 1 {
        None
    } else {
        match parse_extend(d[0]) {
            Some(extend) => match parse_kind(d.skip(1)) {
                Some((kind, r1)) => if r1.len() >= 1 && 0 <= r1[0] {
                    match parse_stops(r1.skip(1), r1[0] as nat) {
                        Some((stops, r2)) => if r2.len() == 0 {
                            Some((extend, kind, stops))
                        } else {
                            None
                        },
                        None => None,
                    }
                } else {
                    None
                },
                None => None,
            },
            None => None,
        }
    }
}

// ---------------------------------------------------------------------
// The round trip: decoding an encoding loses nothing.
// ---------------------------------------------------------------------

/// Parsing a scalar's words gives the scalar back.
proof fn lemma_scalar_round(s: Scalar, rest: Seq<i64>)
    requires
        s.wf(),
    ensures
        parse_scalar(scalar_words(s) + rest) == Some((s, rest)),
{
    let d = scalar_words(s) + rest;
    assert(d[0] == s.num);
    assert(d[1] == s.den);
    assert(d.skip(2) =~= rest);
    assert(Scalar { num: d[0], den: d[1] } == s);
}

/// Parsing a point's words gives the point back.
proof fn lemma_point_round(p: Point, rest: Seq<i64>)
    requires
        p.wf(),
    ensures
        parse_point(point_words(p) + rest) == Some((p, rest)),
{
    assert(point_words(p) + rest =~= scalar_words(p.x) + (scalar_words(p.y) + rest));
    lemma_scalar_round(p.x, scalar_words(p.y) + rest);
    lemma_scalar_round(p.y, rest);
}

/// Parsing a color's words gives the color back.
proof fn lemma_color_round(c: RGBA, rest: Seq<i64>)
    ensures
        parse_color(color_words(c) + rest) == Some((c, rest)),
{
    let d = color_words(c) + rest;
    assert(d[0] == c.r as i64);
    assert(d[1] == c.g as i64);
    assert(d[2] == c.b as i64);
    assert(d[3] == c.a as i64);
    assert(d.skip(4) =~= rest);
}

/// Parsing a kind's words gives the kind back.
proof fn lemma_kind_round(k: GradientKind, rest: Seq<i64>)
    requires
        kind_wf(k),
    ensures
        parse_kind(kind_words(k) + rest) == Some((k, rest)),
{
    let d = kind_words(k) + rest;
    match k {
        GradientKind::Linear { start, end } => {
            assert(d[0] == 0i64);
            assert(d.skip(1) =~= point_words(start) + (point_words(end) + rest));
            lemma_point_round(start, point_words(end) + rest);
            lemma_point_round(end, rest);
        },
        GradientKind::Radial { start_center, start_radius, end_center, end_radius } => {
            assert(d[0] == 1i64);
            assert(d.skip(1) =~= point_words(start_center) + (scalar_words(start_radius)
                + (point_words(end_center) + (scalar_words(end_radius) + rest))));
            lemma_point_round(
                start_center,
                scalar_words(start_radius) + (point_words(end_center) + (scalar_words(end_radius)
                    + rest)),
            );
            lemma_scalar_round(
                start_radius,
                point_words(end_center) + (scalar_words(end_radius) + rest),
            );
            lemma_point_round(end_center, scalar_words(end_radius) + rest);
            lemma_scalar_round(end_radius, rest);
        },
        GradientKind::Sweep { center, start_angle, end_angle } => {
            assert(d[0] == 2i64);
            assert(d.skip(1) =~= point_words(center) + (scalar_words(start_angle) + (scalar_words(
                end_angle,
            ) + rest)));
            lemma_point_round(center, scalar_words(start_angle) + (scalar_words(end_angle) + rest));
            lemma_scalar_round(start_angle, scalar_words(end_angle) + rest);
            lemma_scalar_round(end_angle, rest);
        },
    }
}

/// Parsing a stop's words gives the stop back.
proof fn lemma_stop_round(s: ColorStop, rest: Seq<i64>)
    requires
        s.offset.wf(),
    ensures
        parse_stop(stop_words(s) + rest) == Some((s, rest)),
{
    assert(stop_words(s) + rest =~= scalar_words(s.offset) + (color_words(s.color) + rest));
    lemma_scalar_round(s.offset, color_words(s.color) + rest);
    lemma_color_round(s.color, rest);
}

/// Parsing a stop list's words gives the list back, in order.
proof fn lemma_stops_round(stops: Seq<ColorStop>, rest: Seq<i64>)
    requires
        forall|i: int| 0 <= i < stops.len() ==> (#[trigger] stops[i]).offset.wf(),
    ensures
        parse_stops(stops_words(stops) + rest, stops.len()) == Some((stops, rest)),
    decreases stops.len(),
{
    if stops.len() == 0 {
        assert(stops_words(stops) + rest =~= rest);
        assert(Seq::<ColorStop>::empty() =~= stops);
    } else {
        let tail = stops.skip(1);
        assert(stops_words(stops) + rest =~= stop_words(stops[0]) + (stops_words(tail) + rest));
        lemma_stop_round(stops[0], stops_words(tail) + rest);
        lemma_stops_round(tail, rest);
        assert(seq![stops[0]] + tail =~= stops);
    }
}

/// Append a scalar's words.
fn push_scalar(out: &mut Vec<i64>, s: Scalar)
    ensures
        final(out)@ == old(out)@ + scalar_words(s),
{
    out.push(s.num);
    out.push(s.den);
    proof {
        assert(out@ =~= old(out)@ + scalar_words(s));
    }
}

/// Append a point's words.
fn push_point(out: &mut Vec<i64>, p: Point)
    ensures
        final(out)@ == old(out)@ + point_words(p),
{
    push_scalar(out, p.x);
    push_scalar(out, p.y);
    proof {
        assert(out@ =~= old(out)@ + point_words(p));
    }
}

/// Append a color's words.
fn push_color(out: &mut Vec<i64>, c: RGBA)
    ensures
        final(out)@ == old(out)@ + color_words(c),
{
    out.push(c.r as i64);
    out.push(c.g as i64);
    out.push(c.b as i64);
    out.push(c.a as i64);
    proof {
        assert(out@ =~= old(out)@ + color_words(c));
    }
}

/// The scalar at the front of `data[pos..]`, if the words there form
/// one.
fn read_scalar(data: &Vec<i64>, pos: usize) -> (r: Option<(Scalar, usize)>)
    requires
        pos <= data@.len(),
    ensures
        match r {
            Some(sp) => {
                &&& parse_scalar(data@.skip(pos as int)) == Some((sp.0, data@.skip(sp.1 as int)))
                &&& pos < sp.1 <= data@.len()
            },
            None => parse_scalar(data@.skip(pos as int)) is None,
        },
{
    if data.len() - pos >= 2 {
        let den: i64 = data[pos + 1];
        if den > 0 {
            proof {
                assert(data@.skip(pos as int)[0] == data@[pos as int]);
                assert(data@.skip(pos as int)[1] == data@[pos as int + 1]);
                assert(data@.skip(pos as int).skip(2) =~= data@.skip(pos as int + 2));
            }
            Some((Scalar { num: data[pos], den }, pos + 2))
        } else {
            None
        }
    } else {
        None
    }
}

/// The point at the front of `data[pos..]`, if the words there form
/// one.
fn read_point(data: &Vec<i64>, pos: usize) -> (r: Option<(Point, usize)>)
    requires
        pos <= data@.len(),
    ensures
        match r {
            Some(pp) => {
                &&& parse_point(data@.skip(pos as int)) == Some((pp.0, data@.skip(pp.1 as int)))
                &&& pos < pp.1 <= data@.len()
            },
            None => parse_point(data@.skip(pos as int)) is None,
        },
{
    match read_scalar(data, pos) {
        Some((x, p1)) => match read_scalar(data, p1) {
            Some((y, p2)) => Some((Point { x, y }, p2)),
            None => None,
        },
        None => None,
    }
}

/// The color at the front of `data[pos..]`, if the words there form
/// one.
fn read_color(data: &Vec<i64>, pos: usize) -> (r: Option<(RGBA, usize)>)
    requires
        pos <= data@.len(),
    ensures
        match r {
            Some(cp) => {
                &&& parse_color(data@.skip(pos as int)) == Some((cp.0, data@.skip(cp.1 as int)))
                &&& pos < cp.1 <= data@.len()
            },
            None => parse_color(data@.skip(pos as int)) is None,
        },
{
    proof {
        if data@.len() - pos >= 4 {
            assert(data@.skip(pos as int)[0] == data@[pos as int]);
            assert(data@.skip(pos as int)[1] == data@[pos as int + 1]);
            assert(data@.skip(pos as int)[2] == data@[pos as int + 2]);
            assert(data@.skip(pos as int)[3] == data@[pos as int + 3]);
            assert(data@.skip(pos as int).skip(4) =~= data@.skip(pos as int + 4));
        }
    }
    if data.len() - pos >= 4 {
        let w0: i64 = data[pos];
        let w1: i64 = data[pos + 1];
        let w2: i64 = data[pos + 2];
        let w3: i64 = data[pos + 3];
        if 0 <= w0 && w0 <= 255 && 0 <= w1 && w1 <= 255 && 0 <= w2 && w2 <= 255 && 0 <= w3 && w3
            <= 255 {
            Some((RGBA { r: w0 as u8, g: w1 as u8, b: w2 as u8, a: w3 as u8 }, pos + 4))
        } else {
            None
        }
    } else {
        None
    }
}

/// The stop at the front of `data[pos..]`, if the words there form one.
fn read_stop(data: &Vec<i64>, pos: usize) -> (r: Option<(ColorStop, usize)>)
    requires
        pos <= data@.len(),
    ensures
        match r {
            Some(sp) => {
                &&& parse_stop(data@.skip(pos as int)) == Some((sp.0, data@.skip(sp.1 as int)))
                &&& pos < sp.1 <= data@.len()
            },
            None => parse_stop(data@.skip(pos as int)) is None,
        },
{
    match read_scalar(data, pos) {
        Some((offset, p1)) => match read_color(data, p1) {
            Some((color, p2)) => Some((ColorStop { offset, color }, p2)),
            None => None,
        },
        None => None,
    }
}

/// The gradient kind at the front of `data[pos..]`, if the words there
/// form one.
fn read_kind(data: &Vec<i64>, pos: usize) -> (r: Option<(GradientKind, usize)>)
    requires
        pos <= data@.len(),
    ensures
        match r {
            Some(kp) => {
                &&& parse_kind(data@.skip(pos as int)) == Some((kp.0, data@.skip(kp.1 as int)))
                &&& pos <= kp.1 <= data@.len()
            },
            None => parse_kind(data@.skip(pos as int)) is None,
        },
{
    if data.len() - pos < 1 {
        return None;
    }
    let tag: i64 = data[pos];
    proof {
        assert(data@.skip(pos as int)[0] == data@[pos as int]);
        assert(data@.skip(pos as int).skip(1) =~= data@.skip(pos as int + 1));
    }
    if tag == 0 {
        match read_point(data, pos + 1) {
            Some((start, p1)) => match read_point(data, p1) {
                Some((end, p2)) => Some((GradientKind::Linear { start, end }, p2)),
                None => None,
            },
            None => None,
        }
    } else if tag == 1 {
        match read_point(data, pos + 1) {
            Some((start_center, p1)) => match read_scalar(data, p1) {
                Some((start_radius, p2)) => match read_point(data, p2) {
                    Some((end_center, p3)) => match read_scalar(data, p3) {
                        Some((end_radius, p4)) => Some(
                            (
                                GradientKind::Radial {
                                    start_center,
                                    start_radius,
                                    end_center,
                                    end_radius,
                                },
                                p4,
                            ),
                        ),
                        None => None,
                    },
                    None => None,
                },
                None => None,
            },
            None => None,
        }
    } else if tag == 2 {
        match read_point(data, pos + 1) {
            Some((center, p1)) => match read_scalar(data, p1) {
                Some((start_angle, p2)) => match read_scalar(data, p2) {
                    Some((end_angle, p3)) => Some(
                        (GradientKind::Sweep { center, start_angle, end_angle }, p3),
                    ),
                    None => None,
                },
                None => None,
            },
            None => None,
        }
    } else {
        None
    }
}

impl Gradient {
    /// Serialize this gradient into a flat word stream.
    pub fn encode(&self) -> (out: Vec<i64>)
        requires
            self.stops@.len() <= i64::MAX,
        ensures
            out@ == gradient_words(*self),
    {
        let mut out: Vec<i64> = Vec::new();
        match self.extend {
            Extend::Pad => out.push(0),
            Extend::Repeat => out.push(1),
            Extend::Reflect => out.push(2),
        }
        proof {
            assert(out@ =~= seq![extend_word(self.extend)]);
        }
        match &self.kind {
            GradientKind::Linear { start, end } => {
                out.push(0);
                push_point(&mut out, *start);
                push_point(&mut out, *end);
                proof {
                    assert(out@ =~= seq![extend_word(self.extend)] + kind_words(self.kind));
                }
            },
            GradientKind::Radial { start_center, start_radius, end_center, end_radius } => {
                out.push(1);
                push_point(&mut out, *start_center);
                push_scalar(&mut out, *start_radius);
                push_point(&mut out, *end_center);
                push_scalar(&mut out, *end_radius);
                proof {
                    assert(out@ =~= seq![extend_word(self.extend)] + kind_words(self.kind));
                }
            },
            GradientKind::Sweep { center, start_angle, end_angle } => {
                out.push(2);
                push_point(&mut out, *center);
                push_scalar(&mut out, *start_angle);
                push_scalar(&mut out, *end_angle);
                proof {
                    assert(out@ =~= seq![extend_word(self.extend)] + kind_words(self.kind));
                }
            },
        }
        out.push(self.stops.len() as i64);
        proof {
            assert(out@ =~= seq![extend_word(self.extend)] + kind_words(self.kind) + seq![
                self.stops@.len() as i64,
            ]);
            assert(self.stops@.skip(0) =~= self.stops@);
        }
        let ghost head = out@;
        let mut i: usize = 0;
        while i < self.stops.len()
            invariant
                i <= self.stops@.len(),
                out@ == head + stops_words(self.stops@.take(i as int)),
                head == seq![extend_word(self.extend)] + kind_words(self.kind) + seq![
                    self.stops@.len() as i64,
                ],
            decreases self.stops@.len() - i,
        {
            let ghost before = out@;
            let stop = self.stops[i];
            push_scalar(&mut out, stop.offset);
            push_color(&mut out, stop.color);
            proof {
                assert(out@ =~= before + stop_words(self.stops@[i as int]));
                lemma_stops_words_take_step(self.stops@, i as int);
                assert(out@ =~= head + stops_words(self.stops@.take(i as int + 1)));
            }
            i = i + 1;
        }
        proof {
            assert(self.stops@.take(self.stops@.len() as int) =~= self.stops@);
            assert(out@ =~= gradient_words(*self));
        }
        out
    }

    /// Reconstruct a gradient from a flat word stream, if the stream is
    /// a valid encoding with nothing trailing.
    #[verifier::loop_isolation(false)]
    pub fn decode(data: &Vec<i64>) -> (r: Option<Gradient>)
        ensures
            match r {
                Some(g) => decode_words(data@) == Some((g.extend, g.kind, g.stops@)),
                None => decode_words(data@) is None,
            },
    {
        if data.len() < 1 {
            return None;
        }
        let w0: i64 = data[0];
        let extend: Extend = if w0 == 0 {
            Extend::Pad
        } else if w0 == 1 {
            Extend::Repeat
        } else if w0 == 2 {
            Extend::Reflect
        } else {
            return None;
        };
        proof {
            assert(data@.skip(1).len() == data@.len() - 1);
        }
        let kp = read_kind(data, 1);
        let (kind, pos) = match kp {
            Some(kp) => kp,
            None => {
                return None;
            },
        };
        if data.len() - pos < 1 {
            proof {
                assert(data@.skip(pos as int).len() == data@.len() - pos);
            }
            return None;
        }
        let count: i64 = data[pos];
        proof {
            assert(data@.skip(pos as int)[0] == data@[pos as int]);
            assert(data@.skip(pos as int).skip(1) =~= data@.skip(pos as int + 1));
        }
        if count < 0 {
            return None;
        }
        let mut stops: Vec<ColorStop> = Vec::new();
        let mut pos2: usize = pos + 1;
        let mut k: i64 = 0;
        while k < count
            invariant
                0 <= k <= count,
                pos2 <= data@.len(),
                pos < data@.len(),
                match parse_stops(data@.skip(pos2 as int), (count - k) as nat) {
                    Some(pr) => parse_stops(data@.skip(pos as int + 1), count as nat) == Some(
                        (stops@ + pr.0, pr.1),
                    ),
                    None => parse_stops(data@.skip(pos as int + 1), count as nat) is None,
                },
            decreases count - k,
        {
            match read_stop(data, pos2) {
                Some((stop, p2)) => {
                    proof {
                        let m = (count - k) as nat;
                        let rest = data@.skip(p2 as int);
                        assert(parse_stop(data@.skip(pos2 as int)) == Some((stop, rest)));
                        match parse_stops(rest, (m - 1) as nat) {
                            Some(pr) => {
                                assert(parse_stops(data@.skip(pos2 as int), m) == Some(
                                    (seq![stop] + pr.0, pr.1),
                                ));
                                assert(stops@.push(stop) + pr.0 =~= stops@ + (seq![stop] + pr.0));
                            },
                            None => {
                                assert(parse_stops(data@.skip(pos2 as int), m) is None);
                            },
                        }
                    }
                    stops.push(stop);
                    pos2 = p2;
                    k = k + 1;
                },
                None => {
                    proof {
                        let m = (count - k) as nat;
                        assert(parse_stops(data@.skip(pos2 as int), m) is None);
                    }
                    return None;
                },
            }
        }
        proof {
            assert(parse_stops(data@.skip(pos2 as int), 0nat) == Some(
                (Seq::<ColorStop>::empty(), data@.skip(pos2 as int)),
            ));
            assert(stops@ + Seq::<ColorStop>::empty() =~= stops@);
        }
        if pos2 == data.len() {
            proof {
                assert(data@.skip(pos2 as int).len() == 0);
            }
            Some(Gradient { extend, kind, stops })
        } else {
            proof {
                assert(data@.skip(pos2 as int).len() != 0);
            }
            None
        }
    }
}

/// Taking one more stop appends that stop's words.
proof fn lemma_stops_words_take_step(stops: Seq<ColorStop>, i: int)
    requires
        0 <= i < stops.len(),
    ensures
        stops_words(stops.take(i + 1)) == stops_words(stops.take(i)) + stop_words(stops[i]),
    decreases i,
{
    if i == 0 {
        let t1 = stops.take(1);
        assert(t1.len() == 1);
        assert(t1[0] == stops[0]);
        assert(t1.skip(1) =~= Seq::<ColorStop>::empty());
        assert(stops_words(t1.skip(1)) == Seq::<i64>::empty());
        assert(stops_words(t1) == stop_words(stops[0]) + Seq::<i64>::empty());
        assert(stops.take(0).len() == 0);
        assert(stops_words(stops.take(0)) == Seq::<i64>::empty());
        assert(stops_words(stops.take(0)) + stop_words(stops[0]) =~= stop_words(stops[0]) + Seq::<
            i64,
        >::empty());
    } else {
        let tail = stops.skip(1);
        lemma_stops_words_take_step(tail, i - 1);
        assert(stops.take(i + 1)[0] == stops[0]);
        assert(stops.take(i + 1).skip(1) =~= tail.take(i));
        assert(stops.take(i).skip(1) =~= tail.take(i - 1));
        assert(stops.take(i)[0] == stops[0]);
        assert(tail[i - 1] == stops[i]);
        assert(stops_words(stops.take(i + 1)) == stop_words(stops[0]) + stops_words(tail.take(i)));
        assert(stops_words(tail.take(i)) == stops_words(tail.take(i - 1)) + stop_words(
            tail[i - 1],
        ));
        assert(stop_words(stops[0]) + (stops_words(tail.take(i - 1)) + stop_words(stops[i])) =~= (
        stop_words(stops[0]) + stops_words(tail.take(i - 1))) + stop_words(stops[i]));
        assert(stops_words(stops.take(i)) == stop_words(stops[0]) + stops_words(tail.take(i - 1)));
    }
}

/// Decoding an encoded gradient gives back the same extend mode, the
/// same kind, and the same stops in the same order: serialization is
/// lossless for every well-formed gradient.
pub proof fn lemma_gradient_round_trip(g: Gradient)
    requires
        gradient_wf(g),
        g.stops@.len() <= i64::MAX,
    ensures
        decode_words(gradient_words(g)) == Some((g.extend, g.kind, g.stops@)),
{
    let d = gradient_words(g);
    let n = g.stops@.len() as i64;
    assert(d[0] == extend_word(g.extend));
    assert(parse_extend(extend_word(g.extend)) == Some(g.extend));
    assert(d.skip(1) =~= kind_words(g.kind) + (seq![n] + stops_words(g.stops@)));
    lemma_kind_round(g.kind, seq![n] + stops_words(g.stops@));
    let r1 = seq![n] + stops_words(g.stops@);
    assert(r1[0] == n);
    assert(r1.skip(1) =~= stops_words(g.stops@));
    assert(n as nat == g.stops@.len());
    lemma_stops_round(g.stops@, Seq::empty());
    assert(stops_words(g.stops@) + Seq::<i64>::empty() =~= stops_words(g.stops@));
}

} // verus!
