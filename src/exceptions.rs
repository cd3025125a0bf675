use vstd::prelude::*;

verus! {

/// The stage at which decoding a window failed.
#[derive(Debug, Clone, Copy, PartialEq, Eq, Structural)]
pub enum DecodeFailure {
    /// The window is smaller than the codec's order on some axis, or has not exactly two channels.
    Shape,
    /// An observed slice does not occur in the cyclic main number sequence.
    MnsLookupMiss,
    /// A column of delta digits does not occur in its cyclic secondary sequence.
    SnsLookupMiss,
    /// A difference between adjacent slice offsets lies outside the admissible delta range.
    OutOfRangeDelta,
    /// No rotation of the window passes the half-window threshold.
    RotationUndetermined,
}

/// Errors related to decoding operations.
#[derive(Debug, Clone)]
pub struct DecodingError {
    pub kind: DecodeFailure,
    pub message: String,
}

impl DecodingError {
    pub fn new(kind: DecodeFailure, message: &str) -> (r: DecodingError)
        ensures
            r.kind == kind,
            r.message@ == message@,
    {
        DecodingError { kind, message: String::from_str(message) }
    }

    /// A short human-readable description naming the failing stage.
    pub fn to_string(&self) -> (r: String)
        ensures
            r@ == self.message@,
    {
        self.message.clone()
    }
}

/// A base error type for codec-related issues.
#[derive(Debug, Clone)]
pub enum CodecError {
    Decoding(DecodingError),
}

impl CodecError {
    pub fn to_string(&self) -> (r: String)
        ensures
            r@ == match self {
                CodecError::Decoding(e) => e.message@,
            },
    {
        match self {
            CodecError::Decoding(e) => e.message.clone(),
        }
    }
}

impl From<DecodingError> for CodecError {
    fn from(e: DecodingError) -> (r: CodecError)
        ensures
            r == CodecError::Decoding(e),
    {
        CodecError::Decoding(e)
    }
}

impl vstd::std_specs::convert::FromSpecImpl<DecodingError> for CodecError {
    open spec fn obeys_from_spec() -> bool {
        true
    }

    open spec fn from_spec(e: DecodingError) -> CodecError {
        CodecError::Decoding(e)
    }
}

} // verus!
