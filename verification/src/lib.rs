//! A fixed vector scene, rendered to a 192 by 192 canvas of premultiplied
//! RGBA pixels, for use as a reference image.
//!
//! `model` describes what is drawn in plain values, `raster` is the boundary
//! to the rasterizer, `scene` draws the scene through it, and `export` hands
//! the image out as bytes and as a PNG file.

pub mod error;
pub mod export;
pub mod model;
pub mod raster;
pub mod scene;

pub use error::SceneError;
pub use export::{
    encode_reference_png, tiny_skia_rust_reference_height, tiny_skia_rust_reference_stride,
    tiny_skia_rust_reference_width, tiny_skia_rust_render_reference,
};
pub use scene::{render_scene, HEIGHT, WIDTH};
