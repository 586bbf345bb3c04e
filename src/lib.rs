//! Threshold Schnorr signatures (FROST over secp256k1, trusted dealer): key
//! generation, the two-round signing session with its checks, verification,
//! and the hexadecimal wire encoding of byte fields.

pub mod encoding;
pub mod error;
pub mod keygen;
pub mod primitives;
pub mod signing;
pub mod verification;
