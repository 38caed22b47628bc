//! Decoder for a 3D engine's material pipeline: a text material-definition
//! format (shader name plus nested parameter, fallback and proxy blocks) and
//! a versioned binary texture container with block-compressed pixel data.
//!
//! The material side lexes the source text into tokens that reference byte
//! ranges of the input, then parses the token list into a document tree whose
//! strings are ranges into one compacted buffer. The texture side reads the
//! versioned headers and resource table from a byte buffer and decompresses
//! the stored images into linear pixel buffers.

pub mod common;
pub mod vmt;
pub mod vtf;
