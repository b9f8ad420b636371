//! Import of flat and animated raster images into a layered document: a still image
//! becomes a document with one layer, an animation one with a layer per frame.
pub mod color;
pub mod decode;
pub mod error;
pub mod flat;
pub mod laws;
pub mod layerstack;
pub mod title;

pub use color::{Pixel, PixelImage};
pub use decode::RawFrame;
pub use error::ImageImportError;
pub use flat::{
    animation_document, flat_image_document, load_flat_image, load_gif_animation, BASE_LAYER_ID,
    MAX_FRAMES,
};
pub use layerstack::{Layer, LayerStack};
pub use title::layer_title;
