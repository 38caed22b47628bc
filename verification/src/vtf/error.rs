//! Error types of the texture-container pipeline.

use vstd::prelude::*;

verus! {

/// A fault found while validating a texture container's headers or
/// resource table. Every variant aborts the load before any image data is
/// touched.
#[derive(Debug, Clone, Copy, PartialEq, Eq, Structural)]
pub enum VTFError {
    /// The four magic bytes are not the container's signature.
    HeaderSignature,
    /// The version pair lies outside the supported range.
    HeaderVersion,
    /// An image-format code lies outside the known enumeration.
    HeaderImageFormat,
    /// A stored dimension is not a power of two.
    ImageSize,
    /// The buffer is too short for what the headers claim.
    FileSize,
    /// A needed resource record is missing from the resource table.
    ResourceID,
}

impl VTFError {
    /// The description `get_description` promises, one line per variant.
    pub open spec fn spec_description(self) -> Seq<char> {
        match self {
            VTFError::HeaderSignature => "Invalid Header; Signature does not match VTF"@,
            VTFError::HeaderVersion => "Invalid Header; File version does not match 7.0 - 7.5"@,
            VTFError::HeaderImageFormat => "Invalid Header; Invalid image format"@,
            VTFError::ImageSize => "Image width or height is not power of two"@,
            VTFError::FileSize => "File too small to contain header"@,
            VTFError::ResourceID => "Invalid Resource ID"@,
        }
    }

    /// A short human-readable description of the error.
    pub fn get_description(&self) -> (r: &'static str)
        ensures
            r@ == self.spec_description(),
    {
        match self {
            VTFError::HeaderSignature => "Invalid Header; Signature does not match VTF",
            VTFError::HeaderVersion => "Invalid Header; File version does not match 7.0 - 7.5",
            VTFError::HeaderImageFormat => "Invalid Header; Invalid image format",
            VTFError::ImageSize => "Image width or height is not power of two",
            VTFError::FileSize => "File too small to contain header",
            VTFError::ResourceID => "Invalid Resource ID",
        }
    }
}

/// An error of the whole load path: either the caller's byte source failed
/// (reported by whoever did the reading) or the container is invalid.
#[derive(Debug, Clone, PartialEq, Eq)]
pub enum VTFLoadError {
    /// The underlying read failed; carries the reader's message.
    Io(String),
    /// The container itself is invalid.
    VTF(VTFError),
}

} // verus!
