//! Error taxonomy of the completion subsystem. Each kind is surfaced
//! distinctly: parse and resolution failures before any transfer starts,
//! integrity failures after one, and cancellation never as a user-visible
//! error.

use vstd::prelude::*;

verus! {

/// A malformed model reference string; the operation never starts.
#[derive(Clone, Copy, Debug, PartialEq, Eq, Structural)]
pub enum ParseError {
    /// The reference is empty or all whitespace.
    EmptyReference,
    /// No `owner/name` pair precedes the revision or file marker.
    MissingOwnerRepo,
    /// No file segment is present at all.
    MissingFilename,
}

impl ParseError {
    /// A user-facing description of the failure.
    pub fn message(&self) -> (r: &'static str)
        ensures
            self is EmptyReference ==> r@ == "Empty Hugging Face reference"@,
            self is MissingOwnerRepo ==> r@ == "Invalid HF repo format: expected 'owner/repo'"@,
            self is MissingFilename
                ==> r@ == "Missing filename; provide 'owner/repo:relative/path/to/file.gguf'"@,
    {
        match self {
            ParseError::EmptyReference => "Empty Hugging Face reference",
            ParseError::MissingOwnerRepo => "Invalid HF repo format: expected 'owner/repo'",
            ParseError::MissingFilename => {
                "Missing filename; provide 'owner/repo:relative/path/to/file.gguf'"
            },
        }
    }
}

/// A filename alias matched nothing in the registry's file listing; the
/// user must supply a more specific reference.
#[derive(Clone, Copy, Debug, PartialEq, Eq, Structural)]
pub enum ResolutionError {
    /// No listed file contains the alias and carries the artifact
    /// extension.
    NoMatch,
}

/// A completed transfer whose bytes do not match the hash the remote
/// declared; the partial artifact must be discarded, never trusted.
#[derive(Clone, Debug)]
pub enum IntegrityError {
    /// The computed content hash differs from the expected one.
    HashMismatch {
        /// The hash the remote declared.
        expected: String,
        /// The hash computed over the transferred bytes.
        computed: String,
    },
}

/// Why a completion request produced no text.
#[derive(Clone, Copy, Debug, PartialEq, Eq, Structural)]
pub enum CompletionError {
    /// A newer request superseded this one; never a user-visible error.
    Cancelled,
    /// The native inference backend failed to initialize.
    EngineUnavailable,
    /// No model is loaded in the engine slot.
    ModelNotLoaded,
}

} // verus!
