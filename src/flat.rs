use vstd::prelude::*;

use crate::color::{rgba_rows, transparent, Pixel, PixelImage};
use crate::decode::{
    decode_gif, decode_still, decoded_gif, decoded_still, frames_view, gif_signature,
    has_gif_signature, RawFrame,
};
use crate::error::ImageImportError;
use crate::layerstack::{filled, replaced, Layer, LayerStack};
use crate::title::{layer_title, title_spec};

verus! {

/// The identifier of the first layer of an import; layer `i` gets this plus `i`.
pub const BASE_LAYER_ID: u16 = 0x0101;

/// The most frames an animation may have: one layer identifier each, from
/// `BASE_LAYER_ID` up to `u16::MAX`.
pub const MAX_FRAMES: usize = 0xfeff;

/// A layer surface of `width` by `height` that is fully transparent but where the
/// `w` by `h` grid `src` was painted with its top left corner at `(left, top)`.
pub open spec fn placed(
    width: nat,
    height: nat,
    src: Seq<Seq<Pixel>>,
    left: int,
    top: int,
    w: int,
    h: int,
) -> Seq<Seq<Pixel>> {
    replaced(filled(width, height, transparent()), src, left, top, w, h)
}

/// `ls` is the import of a still image of `width` by `height` with RGBA bytes `data`:
/// a document of the image's size with one layer, the first identifier and title,
/// that holds the image.
pub open spec fn is_still_document(ls: LayerStack, width: u32, height: u32, data: Seq<u8>) -> bool {
    &&& ls.wf()
    &&& ls.width == width
    &&& ls.height == height
    &&& ls.layers@.len() == 1
    &&& ls.layers@[0].id == BASE_LAYER_ID
    &&& ls.layers@[0].title@ == title_spec(1)
    &&& ls.layers@[0].grid() == rgba_rows(data, width as nat, height as nat)
}

/// The pixel data of frame `f` fits its size.
pub open spec fn frame_ok(f: (u32, u32, u32, u32, Seq<u8>)) -> bool {
    f.4.len() == f.2 * f.3 * 4
}

/// `l` is the layer that frame `f`, the `i`-th one, becomes on a canvas of `width`
/// by `height`.
pub open spec fn is_frame_layer(
    l: Layer,
    i: int,
    width: u32,
    height: u32,
    f: (u32, u32, u32, u32, Seq<u8>),
) -> bool {
    &&& l.wf()
    &&& l.width == width
    &&& l.height == height
    &&& l.id == BASE_LAYER_ID + i
    &&& l.title@ == title_spec((i + 1) as nat)
    &&& l.grid() == placed(
        width as nat,
        height as nat,
        rgba_rows(f.4, f.2 as nat, f.3 as nat),
        f.0 as int,
        f.1 as int,
        f.2 as int,
        f.3 as int,
    )
}

/// `ls` is the import of an animation of `width` by `height` with `frames`: one layer
/// per frame, in frame order.
pub open spec fn is_animation_document(
    ls: LayerStack,
    width: u32,
    height: u32,
    frames: Seq<(u32, u32, u32, u32, Seq<u8>)>,
) -> bool {
    &&& ls.wf()
    &&& ls.width == width
    &&& ls.height == height
    &&& ls.layers@.len() == frames.len()
    &&& forall|i: int|
        0 <= i < frames.len() ==> is_frame_layer(
            #[trigger] ls.layers@[i],
            i,
            width,
            height,
            frames[i],
        )
}

/// Why the frames `frames` cannot be imported, if they cannot.
pub open spec fn animation_error(frames: Seq<(u32, u32, u32, u32, Seq<u8>)>) -> Option<
    ImageImportError,
> {
    if frames.len() > MAX_FRAMES {
        Some(ImageImportError::TooManyFrames)
    } else if exists|i: int| 0 <= i < frames.len() && !frame_ok(#[trigger] frames[i]) {
        Some(ImageImportError::PixelDataSize)
    } else {
        None
    }
}

/// Builds the document of a decoded still image of `width` by `height` with
/// interleaved RGBA bytes `data`.
pub fn flat_image_document(width: u32, height: u32, data: &Vec<u8>) -> (r: Result<
    LayerStack,
    ImageImportError,
>)
    ensures
        r is Ok <==> data@.len() == width * height * 4,
        r is Err ==> r matches Err(ImageImportError::PixelDataSize),
        r matches Ok(ls) ==> is_still_document(ls, width, height, data@),
{
    let img = match PixelImage::from_rgba(width, height, data) {
        Some(img) => img,
        None => return Err(ImageImportError::PixelDataSize),
    };
    let mut ls = LayerStack::new(img.width, img.height);
    let mut layer = Layer::new(BASE_LAYER_ID, img.width, img.height, Pixel::transparent());
    layer.title = layer_title(1);
    layer.draw_image(&img, 0, 0);
    assert forall|y: int| 0 <= y < height implies #[trigger] layer.grid()[y] =~= img.grid()[y] by {}
    assert(layer.grid() =~= img.grid());
    match ls.add_layer(layer) {
        Ok(()) => {},
        Err(e) => return Err(e),
    }
    Ok(ls)
}

/// Builds the document of a decoded animation with a canvas of `width` by `height`:
/// one layer per frame, in frame order, each holding only its own frame.
pub fn animation_document(width: u32, height: u32, frames: &Vec<RawFrame>) -> (r: Result<
    LayerStack,
    ImageImportError,
>)
    ensures
        r is Ok <==> animation_error(frames_view(frames@)) is None,
        r is Err ==> r == Err::<LayerStack, ImageImportError>(
            animation_error(frames_view(frames@))->Some_0,
        ),
        r matches Ok(ls) ==> is_animation_document(ls, width, height, frames_view(frames@)),
{
    let ghost fv = frames_view(frames@);
    if frames.len() > MAX_FRAMES {
        return Err(ImageImportError::TooManyFrames);
    }
    let mut ls = LayerStack::new(width, height);
    let mut i: usize = 0;
    while i < frames.len()
        invariant
            fv == frames_view(frames@),
            frames@.len() <= MAX_FRAMES,
            i <= frames@.len(),
            ls.wf(),
            ls.width == width,
            ls.height == height,
            ls.layers@.len() == i,
            forall|j: int| 0 <= j < i ==> frame_ok(#[trigger] fv[j]),
            forall|j: int|
                0 <= j < i ==> is_frame_layer(#[trigger] ls.layers@[j], j, width, height, fv[j]),
        decreases frames@.len() - i,
    {
        let frame = &frames[i];
        assert(fv[i as int] == frame@);
        let img = match PixelImage::from_rgba(frame.width, frame.height, &frame.data) {
            Some(img) => img,
            None => {
                assert(!frame_ok(fv[i as int]));
                return Err(ImageImportError::PixelDataSize);
            },
        };
        let id: u16 = BASE_LAYER_ID + i as u16;
        let mut layer = Layer::new(id, width, height, Pixel::transparent());
        layer.title = layer_title(i as u32 + 1);
        layer.draw_image(&img, frame.left, frame.top);
        assert(!ls.has_id(id)) by {
            assert forall|j: int| 0 <= j < ls.layers@.len() implies (#[trigger] ls.layers@[j]).id
                != id by {
                assert(is_frame_layer(ls.layers@[j], j, width, height, fv[j]));
            }
        }
        match ls.add_layer(layer) {
            Ok(()) => {},
            Err(e) => return Err(e),
        }
        proof {
            assert(is_frame_layer(ls.layers@[i as int], i as int, width, height, fv[i as int]));
        }
        i = i + 1;
    }
    Ok(ls)
}

/// The encoded bytes `bytes` decode to a still image: a GIF stream with at least one
/// frame, whose first frame is taken, or an image of another format.
pub open spec fn flat_import_ok(bytes: Seq<u8>) -> bool {
    if gif_signature(bytes) {
        match decoded_gif(bytes) {
            Some((w, h, f)) => f.len() > 0,
            None => false,
        }
    } else {
        decoded_still(bytes) is Some
    }
}

/// The decoder fails on the encoded bytes `bytes` of a still image.
pub open spec fn flat_import_undecodable(bytes: Seq<u8>) -> bool {
    if gif_signature(bytes) {
        decoded_gif(bytes) is None
    } else {
        decoded_still(bytes) is None
    }
}

/// The encoded bytes `bytes` are a GIF stream that decodes to no frame at all.
pub open spec fn flat_import_no_image(bytes: Seq<u8>) -> bool {
    gif_signature(bytes) && match decoded_gif(bytes) {
        Some((w, h, f)) => f.len() == 0,
        None => false,
    }
}

/// `ls` is the import of the still image that `bytes` decode to.
pub open spec fn is_flat_import(bytes: Seq<u8>, ls: LayerStack) -> bool {
    if gif_signature(bytes) {
        match decoded_gif(bytes) {
            Some((w, h, f)) => f.len() > 0 && is_still_document(ls, w, h, f[0].4),
            None => false,
        }
    } else {
        match decoded_still(bytes) {
            Some((w, h, d)) => is_still_document(ls, w, h, d),
            None => false,
        }
    }
}

/// The GIF in `bytes` decodes to more frames than there are layer identifiers.
pub open spec fn gif_too_many_frames(bytes: Seq<u8>) -> bool {
    match decoded_gif(bytes) {
        Some((w, h, f)) => f.len() > MAX_FRAMES,
        None => false,
    }
}

/// `ls` is the import of the animation that `bytes` decode to.
pub open spec fn is_gif_import(bytes: Seq<u8>, ls: LayerStack) -> bool {
    match decoded_gif(bytes) {
        Some((w, h, f)) => is_animation_document(ls, w, h, f),
        None => false,
    }
}

/// Loads a flat image (one without layers) from the encoded bytes of a file: a
/// document of its size with one layer holding it. Of a GIF stream the first frame is
/// taken.
pub fn load_flat_image(bytes: &[u8]) -> (r: Result<LayerStack, ImageImportError>)
    ensures
        r is Ok <==> flat_import_ok(bytes@),
        r matches Ok(ls) ==> is_flat_import(bytes@, ls),
        flat_import_undecodable(bytes@) ==> r matches Err(ImageImportError::DecodeError(_)),
        flat_import_no_image(bytes@) ==> r matches Err(ImageImportError::NoImage),
{
    if has_gif_signature(bytes) {
        match decode_gif(bytes) {
            Ok((width, height, frames)) => {
                if frames.len() == 0 {
                    return Err(ImageImportError::NoImage);
                }
                assert(frames_view(frames@)[0] == frames@[0]@);
                flat_image_document(width, height, &frames[0].data)
            },
            Err(e) => Err(ImageImportError::DecodeError(e)),
        }
    } else {
        match decode_still(bytes) {
            Ok((width, height, data)) => flat_image_document(width, height, &data),
            Err(e) => Err(ImageImportError::DecodeError(e)),
        }
    }
}

/// Loads a (possibly) animated GIF from the encoded bytes of a file: a document of its
/// canvas size with one layer for each frame.
pub fn load_gif_animation(bytes: &[u8]) -> (r: Result<LayerStack, ImageImportError>)
    ensures
        r is Ok <==> decoded_gif(bytes@) is Some && !gif_too_many_frames(bytes@),
        r matches Ok(ls) ==> is_gif_import(bytes@, ls),
        decoded_gif(bytes@) is None ==> r matches Err(ImageImportError::DecodeError(_)),
        gif_too_many_frames(bytes@) ==> r matches Err(ImageImportError::TooManyFrames),
{
    match decode_gif(bytes) {
        Ok((width, height, frames)) => {
            let ghost fv = frames_view(frames@);
            assert forall|i: int| 0 <= i < fv.len() implies frame_ok(#[trigger] fv[i]) by {
                assert(fv[i] == frames@[i]@);
            }
            animation_document(width, height, &frames)
        },
        Err(e) => Err(ImageImportError::DecodeError(e)),
    }
}

} // verus!
