//! The one error type of the decoding pipeline.

use vstd::prelude::*;

verus! {

/// Why an image could not be turned into a normalised image.
#[derive(Clone, Debug, PartialEq, Eq)]
pub enum DecodeError {
    /// The file's bytes could not be read.
    UnreadableFile,
    /// The generic decoder recognised no format in the bytes, or could not decode them.
    UnsupportedFormat,
    /// The format is known, but its pixel layout (grayscale, indexed, ...) is not handled.
    UnsupportedColorType,
    /// The decoder of the format named by `extension` rejected the bytes.
    Decoding { extension: String, message: String },
    /// The decoded samples do not fit the declared width, height and channel count.
    MalformedBuffer { extension: String },
}

} // verus!
