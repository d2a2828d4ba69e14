use vstd::prelude::*;

verus! {

/// The ways a codec operation can fail.
#[derive(Debug, Clone, PartialEq, Eq)]
pub enum CodecError {
    /// The input is malformed: a bad header, checksum or back-reference.
    Corrupt,
    /// The input ends in the middle of a structure.
    Truncated,
    /// A decoded block disagrees in length with its declared size.
    SizeMismatch,
    /// The streaming session has already reached its terminal state.
    StreamClosed,
    /// An unexpected resource fault, with its description.
    InternalFailure(String),
}

impl CodecError {
    /// A human-readable description of the error.
    pub fn message(&self) -> (r: String)
        ensures
            self is Corrupt ==> r@ == "corrupt input"@,
            self is Truncated ==> r@ == "input ended before the end of the compressed data"@,
            self is SizeMismatch ==> r@ == "decompressed size differs from the declared size"@,
            self is StreamClosed ==> r@ == "stream is finished"@,
            self is InternalFailure ==> r@ == self->InternalFailure_0@,
    {
        match self {
            CodecError::Corrupt => "corrupt input".to_owned(),
            CodecError::Truncated => "input ended before the end of the compressed data".to_owned(),
            CodecError::SizeMismatch => "decompressed size differs from the declared size".to_owned(),
            CodecError::StreamClosed => "stream is finished".to_owned(),
            CodecError::InternalFailure(m) => m.clone(),
        }
    }
}

} // verus!
