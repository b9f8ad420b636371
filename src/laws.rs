use vstd::prelude::*;

use crate::color::{rgba_pixel, transparent};
use crate::error::ImageImportError;
use crate::flat::{
    animation_error, frame_ok, is_animation_document, is_flat_import, is_still_document,
    BASE_LAYER_ID,
};
use crate::layerstack::{in_rect, sample, LayerStack};
use crate::title::title_spec;

verus! {

/// Sampling the layer of an imported still image at any point of the image gives the
/// image's own pixel there.
pub proof fn lemma_still_samples_match_source(
    ls: LayerStack,
    width: u32,
    height: u32,
    data: Seq<u8>,
    x: int,
    y: int,
)
    requires
        is_still_document(ls, width, height, data),
        0 <= x < width,
        0 <= y < height,
    ensures
        sample(ls.layers@[0].grid(), x, y) == rgba_pixel(data, width as int, x, y),
{
}

/// On the layer of each frame of an imported animation, the pixels inside the frame's
/// rectangle are the frame's own pixels and all others are fully transparent.
pub proof fn lemma_frame_layer_samples(
    ls: LayerStack,
    width: u32,
    height: u32,
    frames: Seq<(u32, u32, u32, u32, Seq<u8>)>,
    i: int,
    x: int,
    y: int,
)
    requires
        is_animation_document(ls, width, height, frames),
        0 <= i < frames.len(),
        0 <= x < width,
        0 <= y < height,
    ensures
        ({
            let (left, top, w, h, data) = frames[i];
            sample(ls.layers@[i].grid(), x, y) == if in_rect(
                x,
                y,
                left as int,
                top as int,
                w as int,
                h as int,
            ) {
                rgba_pixel(data, w as int, x - left, y - top)
            } else {
                transparent()
            }
        }),
{
    assert(ls.layers@[i].wf());
}

/// Importing the same bytes twice gives documents equal in size, layers, identifiers,
/// titles and pixels.
pub proof fn lemma_flat_import_deterministic(bytes: Seq<u8>, a: LayerStack, b: LayerStack)
    requires
        is_flat_import(bytes, a),
        is_flat_import(bytes, b),
    ensures
        a.width == b.width,
        a.height == b.height,
        a.layers@.len() == b.layers@.len(),
        forall|i: int|
            0 <= i < a.layers@.len() ==> {
                &&& (#[trigger] a.layers@[i]).id == b.layers@[i].id
                &&& a.layers@[i].title@ == b.layers@[i].title@
                &&& a.layers@[i].grid() == b.layers@[i].grid()
            },
{
}

/// An animation without frames is imported as a document of its canvas size without
/// layers.
pub proof fn lemma_no_frames(ls: LayerStack, width: u32, height: u32)
    requires
        is_animation_document(ls, width, height, Seq::empty()),
    ensures
        ls.width == width,
        ls.height == height,
        ls.layers@.len() == 0,
{
}

/// An animation whose frames are each paired with a layer has layer identifiers
/// counting up from the base one and titles numbered from one, in frame order.
pub proof fn lemma_animation_ids_and_titles(
    ls: LayerStack,
    width: u32,
    height: u32,
    frames: Seq<(u32, u32, u32, u32, Seq<u8>)>,
)
    requires
        is_animation_document(ls, width, height, frames),
    ensures
        ls.layers@.len() == frames.len(),
        forall|i: int|
            0 <= i < frames.len() ==> (#[trigger] ls.layers@[i]).id == BASE_LAYER_ID + i
                && ls.layers@[i].title@ == title_spec((i + 1) as nat),
{
    assert forall|i: int| 0 <= i < frames.len() implies (#[trigger] ls.layers@[i]).id
        == BASE_LAYER_ID + i && ls.layers@[i].title@ == title_spec((i + 1) as nat) by {
        assert(crate::flat::is_frame_layer(ls.layers@[i], i, width, height, frames[i]));
    }
}

/// A two-frame animation whose second frame holds pixel data that does not fit its
/// size cannot be imported: the import fails on that frame.
pub proof fn lemma_corrupt_second_frame(frames: Seq<(u32, u32, u32, u32, Seq<u8>)>)
    requires
        frames.len() == 2,
        !frame_ok(frames[1]),
    ensures
        animation_error(frames) == Some(ImageImportError::PixelDataSize),
{
}

} // verus!
