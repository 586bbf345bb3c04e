use vstd::prelude::*;

verus! {

/// Every way a key-generation, signing or verification request can fail.
#[derive(Clone, Copy, Debug, PartialEq, Eq, Structural)]
pub enum FrostError {
    /// The threshold is below two or above the number of participants.
    InvalidThreshold,
    /// A byte field has the wrong length, or text is not hexadecimal.
    MalformedInput,
    /// Bytes of the right length that are not a valid scalar, point or package.
    ParseFailure,
    /// Shares that repeat an identifier or belong to another group key.
    KeySetMismatch,
    /// Fewer shares than the threshold asks for.
    InsufficientShares,
    /// The round-two step of one participant failed.
    PartialSignFailure { participant: u16 },
    /// The signature shares could not be combined.
    AggregationFailure,
    /// The shares combined into a signature that does not verify.
    AggregationInconsistency,
    /// A value could not be written out as bytes.
    SerializationFailure,
    /// The dealer could not split the key.
    GenerationFailure,
}

} // verus!
