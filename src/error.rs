use vstd::prelude::*;

verus! {

/// Why an import failed.
#[derive(Debug)]
pub enum ImageImportError {
    /// The decoder could not decode the source; its own error is kept.
    DecodeError(image::ImageError),
    /// A decoded pixel buffer does not hold four bytes for each pixel of its size.
    PixelDataSize,
    /// A source meant to hold a still image holds no image.
    NoImage,
    /// The layer stack already holds a layer with the identifier of a new one.
    DuplicateLayerId,
    /// An animation has more frames than there are layer identifiers left for them.
    TooManyFrames,
}

} // verus!
