//! Error types of the material-file pipeline.

use vstd::prelude::*;

verus! {

/// A fault found while lexing or parsing a material file. Lexical and
/// syntactic faults carry a short description of the missing construct.
#[derive(Debug, Clone, PartialEq, Eq)]
pub enum VMTError {
    /// The document ended before the shader block was closed.
    UnclosedBlock,
    /// A character arrived that no token may contain at that place.
    InvalidToken,
    /// A token arrived in a state that does not expect it.
    SyntaxError(&'static str),
    /// A shader type outside the known set (kept for callers; the core
    /// does not validate shader names).
    UnknownShader(String),
    /// A parameter key outside the known set (kept for callers; the core
    /// does not validate parameter names).
    UnknownParameter(String),
}

impl VMTError {
    /// The description `description` promises, one line per variant.
    pub open spec fn spec_description(self) -> Seq<char> {
        match self {
            VMTError::UnclosedBlock => "Unclosed Block; missing \"}\""@,
            VMTError::InvalidToken => "Invalid token"@,
            VMTError::SyntaxError(_) => "Syntax Error"@,
            VMTError::UnknownShader(_) => "Unknown Shader found"@,
            VMTError::UnknownParameter(_) => "Unknown Parameter found"@,
        }
    }

    /// A short human-readable description of the error class.
    pub fn description(&self) -> (r: &'static str)
        ensures
            r@ == self.spec_description(),
    {
        match self {
            VMTError::UnclosedBlock => "Unclosed Block; missing \"}\"",
            VMTError::InvalidToken => "Invalid token",
            VMTError::SyntaxError(_) => "Syntax Error",
            VMTError::UnknownShader(_) => "Unknown Shader found",
            VMTError::UnknownParameter(_) => "Unknown Parameter found",
        }
    }
}

/// An error of the whole load path: either the caller's byte source failed
/// (reported by whoever did the reading) or the material text is invalid.
#[derive(Debug, Clone, PartialEq, Eq)]
pub enum VMTLoadError {
    /// The underlying read failed; carries the reader's message.
    Io(String),
    /// The material text itself is invalid.
    VMT(VMTError),
}

} // verus!
