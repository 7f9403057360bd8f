use vstd::prelude::*;

verus! {

/// The structural errors of the codec.
#[derive(Clone, Copy, Debug, PartialEq, Eq, Structural)]
pub enum HepError {
    /// A chunk header is truncated, declares a length below six, or
    /// declares more payload than the input holds.
    MalformedChunk,
    /// A chunk or packet would not fit its 16-bit length field.
    PayloadTooLarge,
    /// A builder was used after it had already built its packet.
    BuilderMisuse,
}

} // verus!
