use dpimpex::decode::has_gif_signature;
use dpimpex::{
    animation_document, flat_image_document, layer_title, load_flat_image, load_gif_animation,
    ImageImportError, Layer, LayerStack, Pixel, PixelImage, RawFrame, BASE_LAYER_ID, MAX_FRAMES,
};
use image::codecs::gif::GifEncoder;
use image::{Delay, Frame, ImageOutputFormat, Rgba, RgbaImage};

fn px(r: u8, g: u8, b: u8, a: u8) -> Pixel {
    Pixel { r, g, b, a }
}

fn channels(p: Pixel) -> (f32, f32, f32, f32) {
    (
        p.r as f32 / 255.0,
        p.g as f32 / 255.0,
        p.b as f32 / 255.0,
        p.a as f32 / 255.0,
    )
}

fn close(a: f32, b: f32) -> bool {
    (a - b).abs() < 0.001
}

/// A 128 by 128 image in four quadrants: red, green, blue and translucent white.
fn testpattern_png() -> Vec<u8> {
    let img = RgbaImage::from_fn(128, 128, |x, y| match (x < 64, y < 64) {
        (true, true) => Rgba([255, 0, 0, 255]),
        (false, true) => Rgba([0, 255, 0, 255]),
        (true, false) => Rgba([0, 0, 255, 255]),
        (false, false) => Rgba([255, 255, 255, 128]),
    });
    let mut bytes: Vec<u8> = Vec::new();
    image::DynamicImage::ImageRgba8(img)
        .write_to(&mut bytes, ImageOutputFormat::Png)
        .unwrap();
    bytes
}

fn gif_bytes(frames: Vec<RgbaImage>) -> Vec<u8> {
    let mut bytes: Vec<u8> = Vec::new();
    {
        let mut enc = GifEncoder::new(&mut bytes);
        for f in frames {
            enc.encode_frame(Frame::from_parts(f, 0, 0, Delay::from_numer_denom_ms(100, 1)))
                .unwrap();
        }
    }
    bytes
}

fn solid(w: u32, h: u32, c: [u8; 4]) -> RgbaImage {
    RgbaImage::from_fn(w, h, |_, _| Rgba(c))
}

fn raw(left: u32, top: u32, width: u32, height: u32, c: [u8; 4]) -> RawFrame {
    let mut data = Vec::new();
    for _ in 0..(width * height) {
        data.extend_from_slice(&c);
    }
    RawFrame { left, top, width, height, data }
}

#[test]
fn test_load_testpattern() {
    let ls = load_flat_image(&testpattern_png()).unwrap();
    let layer = ls.get_layer(0x0101).unwrap();

    assert_eq!(channels(layer.sample_pixel(32, 32)), (1.0, 0.0, 0.0, 1.0));
    assert_eq!(channels(layer.sample_pixel(96, 32)), (0.0, 1.0, 0.0, 1.0));
    assert_eq!(channels(layer.sample_pixel(32, 96)), (0.0, 0.0, 1.0, 1.0));
    let (r, g, b, a) = channels(layer.sample_pixel(96, 96));
    assert_eq!((r, g, b), (1.0, 1.0, 1.0));
    assert!(close(a, 0.502));
}

#[test]
fn still_image_has_one_layer_of_its_size() {
    let ls = load_flat_image(&testpattern_png()).unwrap();
    assert_eq!((ls.width, ls.height), (128, 128));
    assert_eq!(ls.layers.len(), 1);
    assert_eq!(ls.layers[0].id, BASE_LAYER_ID);
    assert_eq!(ls.layers[0].title, "Layer 1");
}

#[test]
fn still_image_round_trips_every_pixel() {
    let data: Vec<u8> = (0..(5 * 3 * 4)).map(|v| (v * 7 % 256) as u8).collect();
    let ls = flat_image_document(5, 3, &data).unwrap();
    let layer = &ls.layers[0];
    for y in 0..3u32 {
        for x in 0..5u32 {
            let k = ((y * 5 + x) * 4) as usize;
            assert_eq!(
                layer.sample_pixel(x, y),
                px(data[k], data[k + 1], data[k + 2], data[k + 3])
            );
        }
    }
    assert_eq!(layer.sample_pixel(5, 0), px(0, 0, 0, 0));
}

#[test]
fn still_import_is_deterministic() {
    let bytes = testpattern_png();
    let a = load_flat_image(&bytes).unwrap();
    let b = load_flat_image(&bytes).unwrap();
    assert_eq!((a.width, a.height), (b.width, b.height));
    assert_eq!(a.layers.len(), b.layers.len());
    assert_eq!(a.layers[0].id, b.layers[0].id);
    assert_eq!(a.layers[0].title, b.layers[0].title);
    assert_eq!(a.layers[0].pixels, b.layers[0].pixels);
}

#[test]
fn undecodable_still_image_fails() {
    assert!(matches!(
        load_flat_image(&[1, 2, 3, 4, 5]),
        Err(ImageImportError::DecodeError(_))
    ));
    assert!(matches!(
        load_flat_image(&[]),
        Err(ImageImportError::DecodeError(_))
    ));
}

#[test]
fn mismatched_pixel_data_fails() {
    let data = vec![0u8; 4 * 4 * 4 - 1];
    assert!(matches!(
        flat_image_document(4, 4, &data),
        Err(ImageImportError::PixelDataSize)
    ));
}

#[test]
fn empty_still_image() {
    let ls = flat_image_document(0, 0, &Vec::new()).unwrap();
    assert_eq!((ls.width, ls.height, ls.layers.len()), (0, 0, 1));
}

#[test]
fn animation_layers_follow_frames() {
    let bytes = gif_bytes(vec![
        solid(4, 3, [255, 0, 0, 255]),
        solid(4, 3, [0, 0, 255, 255]),
        solid(4, 3, [0, 255, 0, 255]),
    ]);
    let ls = load_gif_animation(&bytes).unwrap();
    assert_eq!((ls.width, ls.height), (4, 3));
    assert_eq!(ls.layers.len(), 3);
    for (i, layer) in ls.layers.iter().enumerate() {
        assert_eq!(layer.id, 0x0101 + i as u16);
        assert_eq!(layer.title, format!("Layer {}", i + 1));
        assert_eq!((layer.width, layer.height), (4, 3));
    }
    assert_eq!(ls.layers[0].sample_pixel(1, 1), px(255, 0, 0, 255));
    assert_eq!(ls.layers[1].sample_pixel(1, 1), px(0, 0, 255, 255));
}

#[test]
fn undecodable_animation_fails() {
    assert!(matches!(
        load_gif_animation(&[0x47, 0x49, 0x46]),
        Err(ImageImportError::DecodeError(_))
    ));
}

#[test]
fn frame_is_placed_at_its_offset() {
    let frames = vec![raw(1, 2, 2, 1, [10, 20, 30, 40])];
    let ls = animation_document(4, 4, &frames).unwrap();
    let layer = &ls.layers[0];
    for y in 0..4u32 {
        for x in 0..4u32 {
            let expected = if y == 2 && (x == 1 || x == 2) {
                px(10, 20, 30, 40)
            } else {
                px(0, 0, 0, 0)
            };
            assert_eq!(layer.sample_pixel(x, y), expected);
        }
    }
}

#[test]
fn frame_outside_canvas_is_clipped() {
    let frames = vec![raw(3, 3, 3, 3, [1, 2, 3, 4])];
    let ls = animation_document(4, 4, &frames).unwrap();
    let layer = &ls.layers[0];
    assert_eq!(layer.sample_pixel(3, 3), px(1, 2, 3, 4));
    assert_eq!(layer.sample_pixel(2, 3), px(0, 0, 0, 0));
    assert_eq!(layer.pixels.len(), 4);
    assert!(layer.pixels.iter().all(|row| row.len() == 4));
}

#[test]
fn layers_are_not_composited_together() {
    let frames = vec![raw(0, 0, 2, 2, [9, 9, 9, 255]), raw(1, 1, 1, 1, [5, 5, 5, 255])];
    let ls = animation_document(2, 2, &frames).unwrap();
    assert_eq!(ls.layers[1].sample_pixel(0, 0), px(0, 0, 0, 0));
    assert_eq!(ls.layers[1].sample_pixel(1, 1), px(5, 5, 5, 255));
    assert_eq!(ls.layers[0].sample_pixel(1, 1), px(9, 9, 9, 255));
}

#[test]
fn zero_frames_give_empty_document() {
    let ls = animation_document(7, 5, &Vec::new()).unwrap();
    assert_eq!((ls.width, ls.height), (7, 5));
    assert!(ls.layers.is_empty());
}

#[test]
fn missized_second_frame_fails_whole_import() {
    let mut bad = raw(0, 0, 2, 2, [1, 1, 1, 1]);
    bad.data.pop();
    let frames = vec![raw(0, 0, 2, 2, [1, 1, 1, 1]), bad];
    assert!(matches!(
        animation_document(2, 2, &frames),
        Err(ImageImportError::PixelDataSize)
    ));
}

#[test]
fn too_many_frames_fail() {
    let frames: Vec<RawFrame> = (0..MAX_FRAMES + 1).map(|_| raw(0, 0, 0, 0, [0; 4])).collect();
    assert!(matches!(
        animation_document(1, 1, &frames),
        Err(ImageImportError::TooManyFrames)
    ));
}

#[test]
fn last_layer_id_is_the_largest() {
    assert_eq!(BASE_LAYER_ID as usize + MAX_FRAMES - 1, u16::MAX as usize);
}

#[test]
fn duplicate_layer_id_is_rejected() {
    let mut ls = LayerStack::new(2, 2);
    ls.add_layer(Layer::new(7, 2, 2, px(0, 0, 0, 0))).unwrap();
    assert!(matches!(
        ls.add_layer(Layer::new(7, 2, 2, px(1, 1, 1, 1))),
        Err(ImageImportError::DuplicateLayerId)
    ));
    assert_eq!(ls.layers.len(), 1);
    assert!(ls.add_layer(Layer::new(8, 2, 2, px(1, 1, 1, 1))).is_ok());
    assert_eq!(ls.get_layer(8).unwrap().sample_pixel(1, 1), px(1, 1, 1, 1));
    assert!(ls.get_layer(9).is_none());
}

#[test]
fn layer_titles_are_numbered() {
    assert_eq!(layer_title(1), "Layer 1");
    assert_eq!(layer_title(10), "Layer 10");
    assert_eq!(layer_title(65279), "Layer 65279");
    assert_eq!(layer_title(0), "Layer 0");
}

#[test]
fn draw_replaces_existing_pixels() {
    let mut layer = Layer::new(1, 3, 1, px(8, 8, 8, 8));
    let src = PixelImage::from_rgba(2, 1, &vec![1, 2, 3, 0, 4, 5, 6, 0]).unwrap();
    layer.draw_image(&src, 1, 0);
    assert_eq!(layer.sample_pixel(0, 0), px(8, 8, 8, 8));
    assert_eq!(layer.sample_pixel(1, 0), px(1, 2, 3, 0));
    assert_eq!(layer.sample_pixel(2, 0), px(4, 5, 6, 0));
}

#[test]
fn rgba_bytes_become_rows() {
    let img = PixelImage::from_rgba(1, 2, &vec![1, 2, 3, 4, 5, 6, 7, 8]).unwrap();
    assert_eq!(img.rows, vec![vec![px(1, 2, 3, 4)], vec![px(5, 6, 7, 8)]]);
    assert!(PixelImage::from_rgba(1, 2, &vec![1, 2, 3, 4]).is_none());
}

/// Where the first image of the GIF stream `bytes` after `skip` images starts.
fn image_descriptor(bytes: &[u8], skip: usize) -> usize {
    let mut seen = 0;
    for p in 0..bytes.len() - 3 {
        // each frame is written as a graphic control extension followed by an image
        if bytes[p] == 0x21 && bytes[p + 1] == 0xf9 && bytes[p + 2] == 0x04 {
            if seen == skip {
                assert_eq!(bytes[p + 8], 0x2c);
                return p + 8;
            }
            seen += 1;
        }
    }
    panic!("no image descriptor");
}

/// Gives the image whose descriptor is at `desc` an invalid LZW minimum code size.
fn corrupt_image(bytes: &mut Vec<u8>, desc: usize) {
    let flags = bytes[desc + 9];
    let palette = if flags & 0x80 != 0 { 3 << ((flags & 0x07) + 1) } else { 0 };
    bytes[desc + 10 + palette] = 20;
}

#[test]
fn corrupt_second_gif_frame_fails_whole_import() {
    let mut bytes = gif_bytes(vec![solid(4, 3, [255, 0, 0, 255]), solid(4, 3, [0, 0, 255, 255])]);
    assert!(load_gif_animation(&bytes).is_ok());
    let desc = image_descriptor(&bytes, 1);
    corrupt_image(&mut bytes, desc);
    assert!(matches!(
        load_gif_animation(&bytes),
        Err(ImageImportError::DecodeError(_))
    ));
    assert!(load_flat_image(&bytes).is_err());
}

#[test]
fn gif_still_takes_first_frame() {
    let bytes = gif_bytes(vec![solid(4, 3, [255, 0, 0, 255]), solid(4, 3, [0, 0, 255, 255])]);
    let ls = load_flat_image(&bytes).unwrap();
    assert_eq!((ls.width, ls.height, ls.layers.len()), (4, 3, 1));
    assert_eq!(ls.layers[0].id, BASE_LAYER_ID);
    assert_eq!(ls.layers[0].sample_pixel(2, 1), px(255, 0, 0, 255));
}

/// A GIF with a 1 by 1 screen whose first image is 2 by 2 at (0, 0).
fn oversized_first_frame_gif() -> Vec<u8> {
    let mut b: Vec<u8> = b"GIF89a".to_vec();
    b.extend_from_slice(&[1, 0, 1, 0, 0x80, 0, 0]);
    b.extend_from_slice(&[0, 0, 0, 255, 255, 255]);
    b.extend_from_slice(&[0x2c, 0, 0, 0, 0, 2, 0, 2, 0, 0]);
    // LZW data: code size 2, clear, four zeros, end
    b.extend_from_slice(&[2, 2, 0x44, 0x01, 0]);
    b.push(0x3b);
    b
}

#[test]
fn gif_still_larger_than_screen_does_not_panic() {
    let r = load_flat_image(&oversized_first_frame_gif());
    if let Ok(ls) = r {
        assert_eq!(ls.layers.len(), 1);
    }
}

#[test]
fn gif_signature_is_recognised() {
    assert!(has_gif_signature(b"GIF89a...."));
    assert!(has_gif_signature(b"GIF87a"));
    assert!(!has_gif_signature(b"GIF88a"));
    assert!(!has_gif_signature(b"GIF8"));
    assert!(!has_gif_signature(&testpattern_png()));
}

#[test]
fn gif_without_frames_fails_to_decode() {
    let mut b: Vec<u8> = b"GIF89a".to_vec();
    b.extend_from_slice(&[1, 0, 1, 0, 0x80, 0, 0]);
    b.extend_from_slice(&[0, 0, 0, 255, 255, 255]);
    b.push(0x3b);
    assert!(matches!(
        load_flat_image(&b),
        Err(ImageImportError::DecodeError(_))
    ));
    assert!(matches!(
        load_gif_animation(&b),
        Err(ImageImportError::DecodeError(_))
    ));
}
