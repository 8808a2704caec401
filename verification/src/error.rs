//! What can go wrong in this crate.

use vstd::prelude::*;

verus! {

/// A failure, with the cause that the decoder or encoder gave.
#[derive(Debug)]
pub enum Failure {
    /// The text of a document is not base64.
    Base64(base64::DecodeError),
    /// The text of a document is longer than the base64 decoder takes.
    TooLong,
    /// The bytes of a document are not TOML.
    Toml(toml::de::Error),
    /// The directory could not be written as JSON.
    Json(serde_json::Error),
}

/// A failure without its cause.
#[derive(Clone, Copy, Debug, PartialEq, Eq, Structural)]
pub enum FailureKind {
    Base64,
    TooLong,
    Toml,
    Json,
}

impl Failure {
    pub open spec fn spec_kind(&self) -> FailureKind {
        match self {
            Failure::Base64(_) => FailureKind::Base64,
            Failure::TooLong => FailureKind::TooLong,
            Failure::Toml(_) => FailureKind::Toml,
            Failure::Json(_) => FailureKind::Json,
        }
    }

    /// Which failure this is.
    #[verifier::when_used_as_spec(spec_kind)]
    pub fn kind(&self) -> (kind: FailureKind)
        ensures
            kind == self.spec_kind(),
    {
        match self {
            Failure::Base64(_) => FailureKind::Base64,
            Failure::TooLong => FailureKind::TooLong,
            Failure::Toml(_) => FailureKind::Toml,
            Failure::Json(_) => FailureKind::Json,
        }
    }

    /// Whether a policy document was refused as malformed, at whichever
    /// stage of decoding.
    pub fn is_malformed_document(&self) -> (yes: bool)
        ensures
            yes == (self.kind() != FailureKind::Json),
    {
        match self {
            Failure::Json(_) => false,
            _ => true,
        }
    }
}

} // verus!
