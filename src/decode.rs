use vstd::prelude::*;

use image::codecs::gif::GifDecoder;
use image::{AnimationDecoder, ImageDecoder};

verus! {

#[verifier::external_type_specification]
#[verifier::external_body]
pub struct ExImageError(image::ImageError);

/// One frame of an animation as the decoder hands it out: where its buffer goes on the
/// canvas, its size, and its pixels as interleaved RGBA bytes.
pub struct RawFrame {
    pub left: u32,
    pub top: u32,
    pub width: u32,
    pub height: u32,
    pub data: Vec<u8>,
}

impl View for RawFrame {
    type V = (u32, u32, u32, u32, Seq<u8>);

    open spec fn view(&self) -> (u32, u32, u32, u32, Seq<u8>) {
        (self.left, self.top, self.width, self.height, self.data@)
    }
}

/// The views of a sequence of frames.
pub open spec fn frames_view(frames: Seq<RawFrame>) -> Seq<(u32, u32, u32, u32, Seq<u8>)> {
    frames.map_values(|f: RawFrame| f@)
}

/// `bytes` start with a GIF signature, `GIF87a` or `GIF89a`.
pub open spec fn gif_signature(bytes: Seq<u8>) -> bool {
    &&& bytes.len() >= 6
    &&& bytes[0] == 0x47u8
    &&& bytes[1] == 0x49u8
    &&& bytes[2] == 0x46u8
    &&& bytes[3] == 0x38u8
    &&& (bytes[4] == 0x37u8 || bytes[4] == 0x39u8)
    &&& bytes[5] == 0x61u8
}

/// Whether `bytes` start with a GIF signature.
pub fn has_gif_signature(bytes: &[u8]) -> (r: bool)
    ensures
        r == gif_signature(bytes@),
{
    bytes.len() >= 6 && bytes[0] == 0x47u8 && bytes[1] == 0x49u8 && bytes[2] == 0x46u8
        && bytes[3] == 0x38u8 && (bytes[4] == 0x37u8 || bytes[4] == 0x39u8) && bytes[5]
        == 0x61u8
}

/// What `image::load_from_memory` makes of `bytes`, as width, height and interleaved
/// RGBA bytes; `None` where it fails.
pub uninterp spec fn decoded_still(bytes: Seq<u8>) -> Option<(u32, u32, Seq<u8>)>;

/// What the GIF decoder of `image` makes of `bytes`: the canvas width and height and
/// every frame in order; `None` where opening the stream or decoding any frame fails.
pub uninterp spec fn decoded_gif(bytes: Seq<u8>) -> Option<(u32, u32, Seq<(u32, u32, u32, u32, Seq<u8>)>)>;

/// Relies on `image::load_from_memory`, which guesses the format from the leading bytes
/// and decodes `bytes` into an image, and `DynamicImage::into_rgba8`, which converts it
/// to a buffer of exactly four bytes per pixel. GIF streams are left out: their decoder
/// there reads a first frame larger than the screen past the end of its buffer.
#[verifier::external_body]
pub(crate) fn decode_still(bytes: &[u8]) -> (r: Result<(u32, u32, Vec<u8>), image::ImageError>)
    requires
        !gif_signature(bytes@),
    ensures
        r is Ok <==> decoded_still(bytes@) is Some,
        r matches Ok((w, h, d)) ==> decoded_still(bytes@) == Some((w, h, d@)) && d@.len() == w
            * h * 4,
{
    let rgba = image::load_from_memory(bytes)?.into_rgba8();
    Ok((rgba.width(), rgba.height(), rgba.into_raw()))
}

/// Relies on `GifDecoder::new`, `ImageDecoder::dimensions` and
/// `Frames::collect_frames`, which decodes every frame in order and fails on the first
/// frame that does not decode. Each frame it hands out covers the whole screen from
/// `(0, 0)`, with four bytes per pixel.
#[verifier::external_body]
pub(crate) fn decode_gif(bytes: &[u8]) -> (r: Result<(u32, u32, Vec<RawFrame>), image::ImageError>)
    ensures
        r is Ok <==> decoded_gif(bytes@) is Some,
        r matches Ok((w, h, f)) ==> {
            &&& decoded_gif(bytes@) == Some((w, h, frames_view(f@)))
            &&& forall|i: int|
                0 <= i < f@.len() ==> {
                    &&& (#[trigger] f@[i]).left == 0
                    &&& f@[i].top == 0
                    &&& f@[i].width == w
                    &&& f@[i].height == h
                    &&& f@[i].data@.len() == w * h * 4
                }
        },
{
    let decoder = GifDecoder::new(std::io::Cursor::new(bytes))?;
    let (w, h) = decoder.dimensions();
    let frames = decoder.into_frames().collect_frames()?;
    let raw = frames.into_iter().map(|f| {
        let (left, top) = (f.left(), f.top());
        let b = f.into_buffer();
        RawFrame { left, top, width: b.width(), height: b.height(), data: b.into_raw() }
    });
    Ok((w, h, raw.collect()))
}

} // verus!
