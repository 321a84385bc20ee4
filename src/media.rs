//! Full images handed to the display surface as data URLs, and pasted pixel
//! data stored as PNG.
use crate::error::ThumbError;
use crate::listing::{mime_for_ext, mime_of};
use crate::text::{extension_of, lower_of, lowercase, path_extension};
use base64::engine::general_purpose::STANDARD;
use base64::Engine;
use image::codecs::png::PngEncoder;
use image::{ExtendedColorType, ImageEncoder, ImageError};
use vstd::prelude::*;

verus! {

/// The character of the standard base64 alphabet for a six-bit value.
pub open spec fn base64_digit(v: nat) -> char {
    if v < 26 {
        ((v + 65) as u8) as char
    } else if v < 52 {
        ((v + 71) as u8) as char
    } else if v < 62 {
        ((v - 4) as u8) as char
    } else if v == 62 {
        '+'
    } else {
        '/'
    }
}

/// Standard base64 with `=` padding: each group of three bytes becomes four
/// characters; a final group of one or two bytes is padded to four.
pub open spec fn base64_of(bytes: Seq<u8>) -> Seq<char>
    decreases bytes.len(),
{
    if bytes.len() == 0 {
        seq![]
    } else if bytes.len() == 1 {
        let a = bytes[0] as nat;
        seq![base64_digit(a / 4), base64_digit((a % 4) * 16), '=', '=']
    } else if bytes.len() == 2 {
        let a = bytes[0] as nat;
        let b = bytes[1] as nat;
        seq![base64_digit(a / 4), base64_digit((a % 4) * 16 + b / 16), base64_digit((b % 16) * 4), '=']
    } else {
        let a = bytes[0] as nat;
        let b = bytes[1] as nat;
        let c = bytes[2] as nat;
        seq![
            base64_digit(a / 4),
            base64_digit((a % 4) * 16 + b / 16),
            base64_digit((b % 16) * 4 + c / 64),
            base64_digit(c % 64),
        ] + base64_of(bytes.subrange(3, bytes.len() as int))
    }
}

/// Relies on base64's `STANDARD.encode`: the padded base64 text of `data`. It panics only where the encoded length
/// overflows `usize`, which the bound on the input rules out.
#[verifier::external_body]
fn encode_base64(data: &[u8]) -> (r: String)
    requires
        data@.len() <= isize::MAX,
    ensures
        r@ == base64_of(data@),
{
    STANDARD.encode(data)
}

/// The extension that selects the media type of the file at `path`: its
/// extension lower-cased, or `png` where it has none.
pub open spec fn media_extension(path: Seq<char>) -> Seq<char> {
    match extension_of(path) {
        Some(e) => lower_of(e),
        None => "png"@,
    }
}

/// The data URL of a file at `path` whose content is `data`.
pub open spec fn data_url(path: Seq<char>, data: Seq<u8>) -> Seq<char> {
    "data:"@ + mime_of(media_extension(path)) + ";base64,"@ + base64_of(data)
}

/// The data URL that shows the file at `path`, whose content is `data`:
/// `data:<media type>;base64,<content>`.
pub fn image_data_url(path: &str, data: &[u8]) -> (r: String)
    requires
        data@.len() <= isize::MAX,
    ensures
        r@ == data_url(path@, data@),
{
    let mime = match path_extension(path) {
        Some(e) => {
            let ext = lowercase(e.as_str());
            mime_for_ext(ext.as_str())
        },
        None => mime_for_ext("png"),
    };
    let mut url = String::from_str("data:");
    url.append(mime);
    url.append(";base64,");
    let body = encode_base64(data);
    url.append(body.as_str());
    url
}

/// The length of a `width` x `height` RGBA buffer with one byte per channel.
pub open spec fn rgba_len(width: u32, height: u32) -> int {
    width as int * height as int * 4
}

/// What the PNG encoder writes for a `width` x `height` RGBA buffer.
pub uninterp spec fn png_rgba_of(rgba: Seq<u8>, width: u32, height: u32) -> Seq<u8>;

/// Relies on `PngEncoder::write_image` with `Rgba8`, writing into memory:
/// its output depends on the pixels and the size alone. It panics unless the
/// buffer holds exactly four bytes per pixel, which the precondition demands.
#[verifier::external_body]
fn encode_png_rgba(rgba: &[u8], width: u32, height: u32) -> (r: Result<Vec<u8>, ImageError>)
    requires
        rgba@.len() == rgba_len(width, height),
    ensures
        r matches Ok(b) ==> b@ == png_rgba_of(rgba@, width, height),
{
    let mut buf: Vec<u8> = Vec::new();
    match PngEncoder::new(&mut buf).write_image(rgba, width, height, ExtendedColorType::Rgba8) {
        Ok(()) => Ok(buf),
        Err(e) => Err(e),
    }
}

/// Encodes pasted RGBA pixel data as a PNG file's content. A buffer whose
/// length is not four bytes per pixel is rejected as invalid input.
pub fn clipboard_png(rgba: &[u8], width: u32, height: u32) -> (r: Result<Vec<u8>, ThumbError>)
    ensures
        rgba@.len() != rgba_len(width, height) <==> r matches Err(ThumbError::InvalidInput),
        r matches Ok(b) ==> b@ == png_rgba_of(rgba@, width, height),
        r matches Err(e) ==> e matches ThumbError::InvalidInput || e matches ThumbError::Encode(_),
{
    let w: u128 = width as u128;
    let h: u128 = height as u128;
    assert(w * h <= 0xffff_ffff_u128 * 0xffff_ffff_u128) by (nonlinear_arith)
        requires
            w <= 0xffff_ffff_u128,
            h <= 0xffff_ffff_u128,
    ;
    let expected: u128 = w * h * 4;
    if rgba.len() as u128 != expected {
        return Err(ThumbError::InvalidInput);
    }
    match encode_png_rgba(rgba, width, height) {
        Ok(bytes) => Ok(bytes),
        Err(e) => Err(ThumbError::Encode(e)),
    }
}

} // verus!
