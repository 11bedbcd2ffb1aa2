//! An immediate-mode vector-graphics scene builder.
//!
//! An application rebuilds a scene every frame: it constructs shapes,
//! brushes, text and sub-scene values and draws them into a
//! [`scenes::Scene`], which accumulates an ordered command list for a
//! rendering backend to rasterize. Coordinates are exact rationals, so
//! the transform algebra, the image-fit derivation, the text layout and
//! the layer push/pop discipline carry machine-checked contracts instead
//! of floating-point approximations.

pub mod scalar;
pub mod affine;
pub mod colors;
pub mod shapes;
pub mod styles;
pub mod brushes;
pub mod scenes;
pub mod geoms;
pub mod text;
pub mod prerendered_scene;
