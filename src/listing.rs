//! Which files count as images, how they are ordered, and their media types.
use crate::text::{lower_extension, lower_extension_of, same_text};
use vstd::prelude::*;

verus! {

/// The recognised image extensions, lower case.
pub open spec fn is_image_extension(ext: Seq<char>) -> bool {
    ext == "png"@ || ext == "jpg"@ || ext == "jpeg"@ || ext == "gif"@ || ext == "bmp"@
        || ext == "webp"@ || ext == "svg"@ || ext == "tiff"@ || ext == "tif"@ || ext == "avif"@
}

/// A path is listed when its lower-cased extension is a recognised one.
pub open spec fn is_listed(path: Seq<char>) -> bool {
    is_image_extension(lower_extension(path))
}

/// A vector image: its extension is `svg` in any case.
pub open spec fn is_vector(path: Seq<char>) -> bool {
    lower_extension(path) == "svg"@
}

/// Code-point order on texts, which is the byte order of their UTF-8 forms.
pub open spec fn text_le(a: Seq<char>, b: Seq<char>) -> bool
    decreases a.len(),
{
    if a.len() == 0 {
        true
    } else if b.len() == 0 {
        false
    } else if a[0] != b[0] {
        (a[0] as u32) < (b[0] as u32)
    } else {
        text_le(a.drop_first(), b.drop_first())
    }
}

/// Every earlier path precedes or equals every later one.
pub open spec fn is_sorted(s: Seq<String>) -> bool {
    forall|i: int, j: int| 0 <= i < j < s.len() ==> text_le(#[trigger] s[i]@, #[trigger] s[j]@)
}

/// Relies on `slice::sort` over `String`, whose order is the byte order of
/// the UTF-8 text: the same strings come out, in ascending order.
#[verifier::external_body]
fn sort_texts(v: &mut Vec<String>)
    ensures
        final(v)@.to_multiset() == old(v)@.to_multiset(),
        is_sorted(final(v)@),
{
    v.sort();
}

/// Whether `ext`, already lower case, is a recognised image extension.
pub fn is_image_extension_text(ext: &str) -> (r: bool)
    ensures
        r == is_image_extension(ext@),
{
    same_text(ext, "png") || same_text(ext, "jpg") || same_text(ext, "jpeg") || same_text(
        ext,
        "gif",
    ) || same_text(ext, "bmp") || same_text(ext, "webp") || same_text(ext, "svg") || same_text(
        ext,
        "tiff",
    ) || same_text(ext, "tif") || same_text(ext, "avif")
}

/// Whether a file at `path` counts as an image.
pub fn is_image_path(path: &str) -> (r: bool)
    ensures
        r == is_listed(path@),
{
    let ext = lower_extension_of(path);
    is_image_extension_text(ext.as_str())
}

/// Whether `path` names a vector image, which needs no thumbnail.
pub fn is_vector_path(path: &str) -> (r: bool)
    ensures
        r == is_vector(path@),
{
    let ext = lower_extension_of(path);
    same_text(ext.as_str(), "svg")
}

/// The images among the regular files `files` of a directory, sorted.
pub fn select_images(files: Vec<String>) -> (r: Vec<String>)
    ensures
        r@.to_multiset() == files@.filter(|p: String| is_listed(p@)).to_multiset(),
        is_sorted(r@),
{
    let mut out: Vec<String> = Vec::new();
    let mut i: usize = 0;
    while i < files.len()
        invariant
            i <= files@.len(),
            out@ == files@.subrange(0, i as int).filter(|p: String| is_listed(p@)),
        decreases files@.len() - i,
    {
        let keep = is_image_path(files[i].as_str());
        proof {
            let prefix = files@.subrange(0, i + 1);
            assert(prefix.drop_last() =~= files@.subrange(0, i as int));
            reveal(Seq::filter);
        }
        if keep {
            out.push(files[i].clone());
        }
        i = i + 1;
    }
    assert(files@.subrange(0, i as int) =~= files@);
    sort_texts(&mut out);
    out
}

/// The media type for a lower-case extension.
pub open spec fn mime_of(ext: Seq<char>) -> Seq<char> {
    if ext == "jpg"@ || ext == "jpeg"@ {
        "image/jpeg"@
    } else if ext == "png"@ {
        "image/png"@
    } else if ext == "gif"@ {
        "image/gif"@
    } else if ext == "webp"@ {
        "image/webp"@
    } else if ext == "svg"@ {
        "image/svg+xml"@
    } else if ext == "bmp"@ {
        "image/bmp"@
    } else if ext == "tiff"@ || ext == "tif"@ {
        "image/tiff"@
    } else if ext == "avif"@ {
        "image/avif"@
    } else {
        "application/octet-stream"@
    }
}

/// The media type for a lower-case extension.
pub fn mime_for_ext(ext: &str) -> (r: &'static str)
    ensures
        r@ == mime_of(ext@),
{
    if same_text(ext, "jpg") || same_text(ext, "jpeg") {
        "image/jpeg"
    } else if same_text(ext, "png") {
        "image/png"
    } else if same_text(ext, "gif") {
        "image/gif"
    } else if same_text(ext, "webp") {
        "image/webp"
    } else if same_text(ext, "svg") {
        "image/svg+xml"
    } else if same_text(ext, "bmp") {
        "image/bmp"
    } else if same_text(ext, "tiff") || same_text(ext, "tif") {
        "image/tiff"
    } else if same_text(ext, "avif") {
        "image/avif"
    } else {
        "application/octet-stream"
    }
}

} // verus!
