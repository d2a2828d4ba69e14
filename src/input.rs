//! Inputs in either of the two shapes a caller may hand over.
use vstd::prelude::*;
use vstd::utf8::encode_utf8;

verus! {

/// Text, read as its UTF-8 encoding, or a byte buffer owned by the host.
#[derive(Debug, Clone)]
pub enum CodecInput {
    Text(String),
    Bytes(Vec<u8>),
}

impl CodecInput {
    /// The bytes the codec reads from this input.
    pub open spec fn bytes(&self) -> Seq<u8> {
        match self {
            CodecInput::Text(s) => encode_utf8(s@),
            CodecInput::Bytes(b) => b@,
        }
    }

    /// Whether this input is a host-owned buffer, which an off-thread task
    /// must hold a reference to while it reads it.
    pub open spec fn is_external(&self) -> bool {
        self is Bytes
    }

    /// A view of the input's bytes, without copying.
    pub fn as_bytes(&self) -> (r: &[u8])
        ensures
            r@ == self.bytes(),
    {
        match self {
            CodecInput::Text(s) => s.as_str().as_bytes(),
            CodecInput::Bytes(b) => b.as_slice(),
        }
    }

    /// Whether this input is a host-owned buffer.
    pub fn is_buffer(&self) -> (r: bool)
        ensures
            r == self.is_external(),
    {
        match self {
            CodecInput::Text(_) => false,
            CodecInput::Bytes(_) => true,
        }
    }
}

/// The bytes of an optional dictionary.
pub open spec fn dict_bytes(dict: Option<CodecInput>) -> Option<Seq<u8>> {
    match dict {
        Some(d) => Some(d.bytes()),
        None => None,
    }
}

} // verus!
