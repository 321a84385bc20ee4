//! Decoding a source image, shrinking it to a bound, and encoding the
//! result as WebP.
use crate::error::ThumbError;
use image::{DynamicImage, ImageError, ImageFormat};
use vstd::prelude::*;

verus! {

#[verifier::external_type_specification]
#[verifier::external_body]
pub struct ExDynamicImage(DynamicImage);

/// A decoded image together with its size in pixels. Only `decode` and
/// `shrink` build one, each reading the size from the image itself.
struct Raster {
    image: DynamicImage,
    width: u32,
    height: u32,
}

/// An encoded thumbnail and the size of the image it holds.
pub struct Thumbnail {
    pub bytes: Vec<u8>,
    pub width: u32,
    pub height: u32,
}

/// The size of the image that the decoder reads from `bytes`, if it reads one.
pub uninterp spec fn decoded_size(bytes: Seq<u8>) -> Option<(u32, u32)>;

/// The size that the image crate gives a `width` x `height` image fitted
/// within a `bound` x `bound` square.
pub uninterp spec fn shrunk_size(width: u32, height: u32, bound: u32) -> (u32, u32);

/// Relies on `image::load_from_memory`: guesses the format from the content
/// and decodes; the outcome depends on the bytes alone.
#[verifier::external_body]
fn decode(bytes: &[u8]) -> (r: Result<Raster, ImageError>)
    ensures
        match r {
            Ok(img) => decoded_size(bytes@) == Some((img.width, img.height)),
            Err(_) => decoded_size(bytes@).is_none(),
        },
{
    match image::load_from_memory(bytes) {
        Ok(image) => Ok(Raster { width: image.width(), height: image.height(), image }),
        Err(e) => Err(e),
    }
}

/// A `width` x `height` image fitted within a `bound` x `bound` square has
/// size `new_width` x `new_height`: its longer side (the width, on a tie) is
/// the bound (at least one pixel), and its other side is at least one pixel,
/// no longer than the first, and within one pixel of the proportional length.
pub open spec fn fitted(width: u32, height: u32, bound: u32, new_width: u32, new_height: u32) -> bool {
    let side: int = if bound >= 1 { bound as int } else { 1 };
    if width >= height {
        &&& new_width == side
        &&& 1 <= new_height <= new_width
        &&& -(width as int) <= new_height as int * width as int - height as int * bound as int
            <= width as int
    } else {
        &&& new_height == side
        &&& 1 <= new_width <= new_height
        &&& -(height as int) <= new_width as int * height as int - width as int * bound as int
            <= height as int
    }
}

/// Relies on `DynamicImage::thumbnail(bound, bound)`: the image fitted within
/// the square, aspect ratio kept, its size computed from the old size and the
/// bound alone. The crate takes the smaller of the two ratios `bound / side`,
/// rounds each scaled side to the nearest integer and keeps it at least 1;
/// double precision makes the longer side come out exactly at the bound.
#[verifier::external_body]
fn shrink(img: &Raster, bound: u32) -> (r: Raster)
    requires
        img.width > bound || img.height > bound,
    ensures
        (r.width, r.height) == shrunk_size(img.width, img.height, bound),
        fitted(img.width, img.height, bound, r.width, r.height),
{
    let image = img.image.thumbnail(bound, bound);
    Raster { width: image.width(), height: image.height(), image }
}

/// The largest side, in pixels, that a WebP image may have.
pub const WEBP_MAX_SIDE: u32 = 16384;

/// Relies on `DynamicImage::write_to` with `ImageFormat::WebP`, writing into
/// memory: the image is first converted to 8-bit channels, and the WebP
/// encoder refuses it only where a side is 0 or over 16384 pixels. Writing
/// into a `Vec` does not fail.
#[verifier::external_body]
fn encode_webp(img: &Raster) -> (r: Result<Vec<u8>, ImageError>)
    ensures
        1 <= img.width <= WEBP_MAX_SIDE && 1 <= img.height <= WEBP_MAX_SIDE ==> r is Ok,
{
    let mut buf: Vec<u8> = Vec::new();
    match img.image.write_to(std::io::Cursor::new(&mut buf), ImageFormat::WebP) {
        Ok(()) => Ok(buf),
        Err(e) => Err(e),
    }
}

/// Whether an image of this size exceeds the bound and must be shrunk.
pub fn needs_downscale(width: u32, height: u32, max_dimension: u32) -> (r: bool)
    ensures
        r == (width > max_dimension || height > max_dimension),
{
    width > max_dimension || height > max_dimension
}

/// The size of the thumbnail of a `width` x `height` image: unchanged when it
/// fits within the bound, never enlarged, else fitted by the image crate.
pub open spec fn planned_size(width: u32, height: u32, max_dimension: u32) -> (u32, u32) {
    if width > max_dimension || height > max_dimension {
        shrunk_size(width, height, max_dimension)
    } else {
        (width, height)
    }
}

/// Whether the thumbnail of a `width` x `height` image within
/// `max_dimension` pixels has a size that WebP can hold.
pub open spec fn encodable(width: u32, height: u32, max_dimension: u32) -> bool {
    if width > max_dimension || height > max_dimension {
        max_dimension <= WEBP_MAX_SIDE
    } else {
        1 <= width <= WEBP_MAX_SIDE && 1 <= height <= WEBP_MAX_SIDE
    }
}

/// Decodes `source`, shrinks it to fit within `max_dimension` pixels if it is
/// larger, and encodes the result as WebP. It succeeds on every source that
/// decodes and whose thumbnail size WebP can hold.
pub fn generate(source: &[u8], max_dimension: u32) -> (r: Result<Thumbnail, ThumbError>)
    ensures
        decoded_size(source@).is_none() <==> r matches Err(ThumbError::Decode(_)),
        decoded_size(source@) matches Some((w, h)) && encodable(w, h, max_dimension) ==> r is Ok,
        match r {
            Ok(t) => decoded_size(source@) matches Some((w, h)) && (t.width, t.height)
                == planned_size(w, h, max_dimension) && if w > max_dimension || h > max_dimension {
                fitted(w, h, max_dimension, t.width, t.height)
            } else {
                t.width == w && t.height == h
            },
            Err(e) => e matches ThumbError::Decode(_) || e matches ThumbError::Encode(_),
        },
{
    let raster = match decode(source) {
        Ok(img) => img,
        Err(e) => return Err(ThumbError::Decode(e)),
    };
    let fitted = if needs_downscale(raster.width, raster.height, max_dimension) {
        shrink(&raster, max_dimension)
    } else {
        raster
    };
    match encode_webp(&fitted) {
        Ok(bytes) => Ok(Thumbnail { bytes, width: fitted.width, height: fitted.height }),
        Err(e) => Err(ThumbError::Encode(e)),
    }
}

} // verus!
