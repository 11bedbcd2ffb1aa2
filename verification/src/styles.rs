//! Fill, stroke, layer and image-fit styles.

use vstd::prelude::*;
use crate::scalar::Scalar;

verus! {

/// How a shape is painted: filled under a fill rule, or stroked along
/// its outline.
#[derive(Clone, Debug)]
pub enum Style {
    Fill(FillStyle),
    Stroke(StrokeStyle),
}

/// The rule deciding which regions lie inside a filled path.
#[derive(Clone, Copy, Debug, PartialEq, Eq, Structural)]
pub enum FillStyle {
    NonZero,
    EvenOdd,
}

/// One dash segment pattern: four successive on/off lengths.
pub type Dashes = Vec<[Scalar; 4]>;

/// Parameters of a stroked outline.
#[derive(Clone, Debug)]
pub struct StrokeStyle {
    pub width: Scalar,
    pub join: Join,
    pub miter_limit: Scalar,
    pub start_cap: Cap,
    pub end_cap: Cap,
    pub dash_pattern: Dashes,
    pub dash_offset: Scalar,
}

/// How two stroke segments are joined.
#[derive(Clone, Copy, Debug, PartialEq, Eq, Structural)]
pub enum Join {
    Bevel,
    Miter,
    Round,
}

/// How a stroke end is capped.
#[derive(Clone, Copy, Debug, PartialEq, Eq, Structural)]
pub enum Cap {
    Butt,
    Square,
    Round,
}

/// How an image's native pixel extent is mapped onto a target region.
#[derive(Clone, Copy, Debug, PartialEq, Eq, Structural)]
pub enum ImageFitMode {
    /// Keep the image's own pixel size.
    Original,
    /// Stretch the image to fill the target region.
    Fill,
    /// Map the image onto the given exact width and height.
    Exact { width: Scalar, height: Scalar },
}

/// How a layer's content blends with what lies below it.
#[derive(Clone, Copy, Debug, PartialEq, Eq, Structural)]
pub enum MixMode {
    Normal,
    Clip,
    Multiply,
}

/// How a layer's content is composited with what lies below it.
#[derive(Clone, Copy, Debug, PartialEq, Eq, Structural)]
pub enum CompositeMode {
    SourceOver,
    DestinationOver,
    SourceIn,
    DestinationIn,
    SourceOut,
    DestinationOut,
    SourceAtop,
    DestinationAtop,
    Lighter,
    Copy,
    Xor,
}

} // verus!
