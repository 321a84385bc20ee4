//! The failures that the thumbnail engine reports.
use image::ImageError;
use vstd::prelude::*;

verus! {

#[verifier::external_type_specification]
#[verifier::external_body]
pub struct ExImageError(ImageError);

/// Why an operation failed.
#[derive(Debug)]
pub enum ThumbError {
    /// The path does not name a file, or a directory, where one is required.
    InvalidInput,
    /// Reading, writing, removing, or reading metadata failed.
    Io(String),
    /// The source bytes are not an image that can be decoded.
    Decode(ImageError),
    /// The thumbnail could not be encoded.
    Encode(ImageError),
    /// The clock, or a file's time, lies before the epoch.
    Time,
    /// An event came that the current step of a lookup does not wait for.
    OutOfOrder,
}

} // verus!
