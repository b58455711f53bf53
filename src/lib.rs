//! Shape scene model, pointer interaction and SDF fragment-shader generation
//! for a small blob-drawing tool.
//!
//! All quantities are fixed-point integers in thousandths (see [`shapes::SCALE`]):
//! a position of `50_000` is 50 pixels, a radius of `200` is 0.2.
pub mod shapes;
pub mod scene;
pub mod shader;
