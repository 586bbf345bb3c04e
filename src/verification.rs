use vstd::prelude::*;
use crate::error::FrostError;
use crate::keygen::{key_set_valid, KeySet, ELEMENT_LEN};
use crate::primitives::{group_key_of, key_bytes_parse, key_parses, signature_bytes_parse, signature_parses,
    signature_valid, verify_bytes};

verus! {

/// Length of a serialized signature: a compressed point (33 bytes) and a
/// scalar (32 bytes). This is what the secp256k1 ciphersuite writes; a
/// 64-byte form would drop the point's parity byte and could not be read back.
pub const SIGNATURE_LEN: usize = 65;

/// What verification answers: a wrong length is malformed, bytes that are
/// not a signature or a key do not parse, and otherwise the primitive's verdict.
pub open spec fn verify_result(message: Seq<u8>, signature: Seq<u8>, public_key: Seq<u8>) -> Result<bool, FrostError> {
    if signature.len() != SIGNATURE_LEN || public_key.len() != ELEMENT_LEN {
        Err(FrostError::MalformedInput)
    } else if !(signature_parses(signature) && key_parses(public_key)) {
        Err(FrostError::ParseFailure)
    } else {
        Ok(signature_valid(public_key, message, signature))
    }
}

/// Checks a signature on `message` under a serialized group key. A signature
/// that is well formed but wrong is `Ok(false)`, not an error.
pub fn verify_signature(message: &Vec<u8>, signature: &Vec<u8>, public_key: &Vec<u8>) -> (r: Result<bool, FrostError>)
    ensures
        (signature@.len() != SIGNATURE_LEN || public_key@.len() != ELEMENT_LEN)
            <==> r == Err::<bool, FrostError>(FrostError::MalformedInput),
        r == Err::<bool, FrostError>(FrostError::ParseFailure) <==> (signature@.len() == SIGNATURE_LEN
            && public_key@.len() == ELEMENT_LEN
            && !(signature_parses(signature@) && key_parses(public_key@))),
        r matches Ok(b) ==> b == signature_valid(public_key@, message@, signature@),
        r matches Err(e) ==> e == FrostError::MalformedInput || e == FrostError::ParseFailure,
        r == verify_result(message@, signature@, public_key@),
{
    if signature.len() != SIGNATURE_LEN || public_key.len() != ELEMENT_LEN {
        return Err(FrostError::MalformedInput);
    }
    if !signature_bytes_parse(signature) || !key_bytes_parse(public_key) {
        return Err(FrostError::ParseFailure);
    }
    Ok(verify_bytes(public_key, message, signature))
}

/// A signature that signing returned for the package of a generated key set
/// verifies under that key set's group key, for the message that was signed.
pub proof fn signed_message_verifies(ks: KeySet, n: u16, t: u16, message: Seq<u8>, signature: Seq<u8>)
    requires
        key_set_valid(ks, n as int, t as int),
        signature.len() == SIGNATURE_LEN,
        signature_valid(group_key_of(ks.public_key_package@), message, signature),
        signature_parses(signature),
        key_parses(group_key_of(ks.public_key_package@)),
    ensures
        verify_result(message, signature, ks.verifying_key@) == Ok::<bool, FrostError>(true),
{
}

} // verus!
