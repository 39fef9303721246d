//! Image validation, re-encoding and variant derivation, on top of the
//! `image` and `webp` crates.
use vstd::prelude::*;

use crate::model::Res;

verus! {

/// Width of every submitted thumbnail, in pixels.
pub const SOURCE_WIDTH: u32 = 1920;

/// Height of every submitted thumbnail, in pixels.
pub const SOURCE_HEIGHT: u32 = 1080;

/// Width and height, plus 8-bit RGB pixels row by row, of the image that
/// `bytes` encode; `None` where they encode no image that the decoder reads.
pub uninterp spec fn decoded_rgb(bytes: Seq<u8>) -> Option<(u32, u32, Seq<u8>)>;

/// RGB pixels of a `width` x `height` image resampled to `new_width` x `new_height`.
pub uninterp spec fn resized_rgb(
    pixels: Seq<u8>,
    width: u32,
    height: u32,
    new_width: u32,
    new_height: u32,
) -> Seq<u8>;

/// Lossless WebP encoding of a `width` x `height` RGB image.
pub uninterp spec fn webp_lossless(pixels: Seq<u8>, width: u32, height: u32) -> Seq<u8>;

/// Relies on `image::load_from_memory` (format guessed from the bytes) and
/// `DynamicImage::into_rgb8`, whose buffer holds at least three bytes per
/// pixel (every `ImageBuffer` is built with at least that many).
#[verifier::external_body]
fn decode_rgb(bytes: &[u8]) -> (r: Option<(u32, u32, Vec<u8>)>)
    ensures
        match r {
            Some((w, h, pixels)) => decoded_rgb(bytes@) == Some((w, h, pixels@)) && pixels@.len()
                >= 3 * w * h,
            None => decoded_rgb(bytes@) is None,
        },
{
    match image::load_from_memory(bytes) {
        Ok(img) => {
            let rgb = img.into_rgb8();
            Some((rgb.width(), rgb.height(), rgb.into_raw()))
        },
        Err(_) => None,
    }
}

/// Relies on `image::imageops::resize` with the Lanczos3 filter, over an
/// `RgbImage` built by `ImageBuffer::from_raw` (which accepts a buffer of at
/// least three bytes per pixel); the result holds at least three bytes per
/// pixel of the new size.
#[verifier::external_body]
fn resize_rgb(pixels: Vec<u8>, width: u32, height: u32, new_width: u32, new_height: u32) -> (r:
    Vec<u8>)
    requires
        pixels@.len() >= 3 * width * height,
    ensures
        r@ == resized_rgb(pixels@, width, height, new_width, new_height),
        r@.len() >= 3 * new_width * new_height,
{
    let img = image::RgbImage::from_raw(width, height, pixels).unwrap();
    image::imageops::resize(&img, new_width, new_height, image::imageops::FilterType::Lanczos3)
        .into_raw()
}

/// Relies on `webp::Encoder::from_rgb` and `Encoder::encode_lossless`, which
/// panic on a buffer shorter than three bytes per pixel and on a dimension
/// that libwebp refuses (zero, or above 16383).
#[verifier::external_body]
fn encode_webp_lossless(pixels: &[u8], width: u32, height: u32) -> (r: Vec<u8>)
    requires
        0 < width <= 16383,
        0 < height <= 16383,
        pixels@.len() >= 3 * width * height,
    ensures
        r@ == webp_lossless(pixels@, width, height),
{
    webp::Encoder::from_rgb(pixels, width, height).encode_lossless().to_vec()
}

/// Whether a decoded image has the size that submissions must have.
pub fn is_source_size(width: u32, height: u32) -> (r: bool)
    ensures
        r == (width == SOURCE_WIDTH && height == SOURCE_HEIGHT),
{
    width == SOURCE_WIDTH && height == SOURCE_HEIGHT
}

/// The artifact stored for a submission: its pixels re-encoded as lossless
/// WebP, provided the bytes decode to a 1920x1080 image.
pub open spec fn prepared_image(bytes: Seq<u8>) -> Option<Seq<u8>> {
    match decoded_rgb(bytes) {
        Some((w, h, pixels)) => if w == SOURCE_WIDTH && h == SOURCE_HEIGHT {
            Some(webp_lossless(pixels, w, h))
        } else {
            None
        },
        None => None,
    }
}

/// Decodes submitted bytes, checks their size and re-encodes them.
pub fn prepare_image(bytes: &[u8]) -> (r: Option<Vec<u8>>)
    ensures
        match r {
            Some(b) => prepared_image(bytes@) == Some(b@),
            None => prepared_image(bytes@) is None,
        },
{
    match decode_rgb(bytes) {
        Some((w, h, pixels)) => {
            if is_source_size(w, h) {
                Some(encode_webp_lossless(pixels.as_slice(), w, h))
            } else {
                None
            }
        },
        None => None,
    }
}

impl Res {
    pub open spec fn size(self) -> (u32, u32) {
        match self {
            Res::High => (1920, 1080),
            Res::Medium => (1280, 720),
            Res::Small => (640, 360),
        }
    }

    /// Width and height of this resolution.
    pub fn dimensions(&self) -> (r: (u32, u32))
        ensures
            r == self.size(),
    {
        match self {
            Res::High => (1920, 1080),
            Res::Medium => (1280, 720),
            Res::Small => (640, 360),
        }
    }
}

/// What is served for a stored artifact at a resolution: the artifact itself
/// at full size, else its pixels resampled and re-encoded.
pub open spec fn variant_of(artifact: Seq<u8>, res: Res) -> Option<Seq<u8>> {
    if res == Res::High {
        Some(artifact)
    } else {
        match decoded_rgb(artifact) {
            Some((w, h, pixels)) => Some(
                webp_lossless(
                    resized_rgb(pixels, w, h, res.size().0, res.size().1),
                    res.size().0,
                    res.size().1,
                ),
            ),
            None => None,
        }
    }
}

/// Derives the variant of a stored artifact served at `res`; `None` where a
/// smaller variant is asked of bytes that do not decode.
pub fn derive_variant(artifact: &[u8], res: Res) -> (r: Option<Vec<u8>>)
    ensures
        match r {
            Some(b) => variant_of(artifact@, res) == Some(b@),
            None => variant_of(artifact@, res) is None,
        },
{
    if res == Res::High {
        let mut out: Vec<u8> = Vec::new();
        out.extend_from_slice(artifact);
        return Some(out);
    }
    let (nw, nh) = res.dimensions();
    match decode_rgb(artifact) {
        Some((w, h, pixels)) => {
            let small = resize_rgb(pixels, w, h, nw, nh);
            Some(encode_webp_lossless(small.as_slice(), nw, nh))
        },
        None => None,
    }
}

} // verus!
