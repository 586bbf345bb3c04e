use vstd::prelude::*;
use crate::signing::{PartialSignature, Signer};

verus! {

// Values of the secp256k1 FROST ciphersuite. The primitives library's types
// are generic over a ciphersuite bound by one of its own traits, which Verus
// cannot declare, so each value is held in an opaque struct of this module.
// The logic around them learns what it needs through the byte forms below.

/// Whether bytes are the serialized form of a participant identifier.
pub uninterp spec fn identifier_parses(b: Seq<u8>) -> bool;

/// Whether bytes are the serialized form of a signing share.
pub uninterp spec fn scalar_parses(b: Seq<u8>) -> bool;

/// Whether bytes are the serialized form of a public key package.
pub uninterp spec fn package_parses(b: Seq<u8>) -> bool;

/// The serialized group key of a serialized public key package.
pub uninterp spec fn group_key_of(package: Seq<u8>) -> Seq<u8>;

/// Whether bytes are the serialized form of a group key.
pub uninterp spec fn key_parses(b: Seq<u8>) -> bool;

/// Whether bytes are the serialized form of a signature.
pub uninterp spec fn signature_parses(b: Seq<u8>) -> bool;

/// Whether a serialized signature is valid for a message under a serialized key.
pub uninterp spec fn signature_valid(key: Seq<u8>, message: Seq<u8>, signature: Seq<u8>) -> bool;

/// A participant identifier: a non-zero scalar.
#[verifier::external_body]
pub struct Identifier {
    inner: frost_secp256k1::Identifier,
}

/// A participant's secret scalar, as handed out by the dealer.
#[verifier::external_body]
pub struct SecretShare {
    inner: frost_secp256k1::keys::SecretShare,
}

/// A participant's secret key shard.
#[verifier::external_body]
pub struct SigningShare {
    inner: frost_secp256k1::keys::SigningShare,
}

/// The public commitment to one participant's signing share.
#[verifier::external_body]
pub struct VerifyingShare {
    inner: frost_secp256k1::keys::VerifyingShare,
}

/// The group's public key.
#[verifier::external_body]
pub struct VerifyingKey {
    inner: frost_secp256k1::VerifyingKey,
}

/// The group key with every participant's verifying share.
#[verifier::external_body]
pub struct PublicKeyPackage {
    inner: frost_secp256k1::keys::PublicKeyPackage,
}

/// What one participant needs to sign.
#[verifier::external_body]
pub struct KeyPackage {
    inner: frost_secp256k1::keys::KeyPackage,
}

/// Round-one secret nonces of one participant.
#[verifier::external_body]
pub struct SigningNonces {
    inner: frost_secp256k1::round1::SigningNonces,
}

/// Round-one public commitments of one participant.
#[verifier::external_body]
pub struct SigningCommitments {
    inner: frost_secp256k1::round1::SigningCommitments,
}

/// The message with every participant's commitments.
#[verifier::external_body]
pub struct SigningPackage {
    inner: frost_secp256k1::SigningPackage,
}

/// Round-two partial signature of one participant.
#[verifier::external_body]
pub struct SignatureShare {
    inner: frost_secp256k1::round2::SignatureShare,
}

/// A complete Schnorr signature.
#[verifier::external_body]
pub struct Signature {
    inner: frost_secp256k1::Signature,
}

/// A cryptographically secure source of randomness.
#[verifier::external_body]
pub struct Rng {
    inner: rand::rngs::ThreadRng,
}

/// Relies on `rand::thread_rng`.
#[verifier::external_body]
pub(crate) fn fresh_rng() -> (r: Rng)
{
    Rng { inner: rand::thread_rng() }
}

/// Relies on `keys::generate_with_dealer` with the default identifier list
/// (identifiers 1 to `n`); the map it returns is handed on as a vector. It
/// refuses a threshold below two or above `n`, and otherwise holds one share
/// per identifier.
#[verifier::external_body]
pub(crate) fn deal_shares(n: u16, t: u16, rng: &mut Rng) -> (r: Option<(Vec<(Identifier, SecretShare)>, PublicKeyPackage)>)
    ensures
        r is Some ==> 2 <= t <= n && r->Some_0.0@.len() == n,
{
    let list = frost_secp256k1::keys::IdentifierList::Default;
    frost_secp256k1::keys::generate_with_dealer(n, t, list, &mut rng.inner).ok().map(|(m, p)| (
        m.into_iter().map(|(i, s)| (Identifier { inner: i }, SecretShare { inner: s })).collect(),
        PublicKeyPackage { inner: p },
    ))
}

/// Relies on `Identifier::serialize`: a secp256k1 scalar is written as 32 bytes.
#[verifier::external_body]
pub(crate) fn identifier_to_bytes(id: &Identifier) -> (r: Vec<u8>)
    ensures
        r@.len() == 32,
{
    id.inner.serialize()
}

/// Relies on `Identifier::deserialize`.
#[verifier::external_body]
pub(crate) fn identifier_from_bytes(b: &Vec<u8>) -> (r: Option<Identifier>)
    ensures
        r is Some <==> identifier_parses(b@),
{
    frost_secp256k1::Identifier::deserialize(b).ok().map(|i| Identifier { inner: i })
}

/// Relies on `SecretShare::signing_share`.
#[verifier::external_body]
pub(crate) fn secret_signing_share(s: &SecretShare) -> (r: SigningShare)
{
    SigningShare { inner: *s.inner.signing_share() }
}

/// Relies on `SigningShare::serialize`: a secp256k1 scalar is written as 32 bytes.
#[verifier::external_body]
pub(crate) fn signing_share_to_bytes(s: &SigningShare) -> (r: Vec<u8>)
    ensures
        r@.len() == 32,
{
    s.inner.serialize()
}

/// Relies on `SigningShare::deserialize`.
#[verifier::external_body]
pub(crate) fn signing_share_from_bytes(b: &Vec<u8>) -> (r: Option<SigningShare>)
    ensures
        r is Some <==> scalar_parses(b@),
{
    frost_secp256k1::keys::SigningShare::deserialize(b).ok().map(|s| SigningShare { inner: s })
}

/// Relies on `PublicKeyPackage::serialize`.
#[verifier::external_body]
pub(crate) fn package_to_bytes(p: &PublicKeyPackage) -> (r: Option<Vec<u8>>)
{
    p.inner.serialize().ok()
}

/// Relies on `PublicKeyPackage::deserialize`.
#[verifier::external_body]
pub(crate) fn package_from_bytes(b: &Vec<u8>) -> (r: Option<PublicKeyPackage>)
    ensures
        r is Some <==> package_parses(b@),
{
    frost_secp256k1::keys::PublicKeyPackage::deserialize(b).ok().map(|p| PublicKeyPackage { inner: p })
}

/// Relies on `PublicKeyPackage::verifying_key`.
#[verifier::external_body]
pub(crate) fn package_group_key(p: &PublicKeyPackage) -> (r: VerifyingKey)
{
    VerifyingKey { inner: *p.inner.verifying_key() }
}



/// Relies on `VerifyingShare::from`: the public commitment to a signing share.
#[verifier::external_body]
pub(crate) fn derive_verifying_share(share: &SigningShare) -> (r: VerifyingShare)
{
    VerifyingShare { inner: frost_secp256k1::keys::VerifyingShare::from(share.inner) }
}

/// Relies on `KeyPackage::new`.
#[verifier::external_body]
pub(crate) fn new_key_package(
    id: &Identifier,
    share: &SigningShare,
    verifying_share: &VerifyingShare,
    key: &VerifyingKey,
    min_signers: u16,
) -> (r: KeyPackage)
{
    KeyPackage { inner: frost_secp256k1::keys::KeyPackage::new(id.inner, share.inner, verifying_share.inner, key.inner, min_signers) }
}

/// Relies on `KeyPackage::identifier`.
#[verifier::external_body]
pub(crate) fn key_package_identifier(key: &KeyPackage) -> (r: Identifier)
{
    Identifier { inner: *key.inner.identifier() }
}

/// Relies on `round1::commit`: fresh nonces and their commitments.
#[verifier::external_body]
pub(crate) fn commit(share: &SigningShare, rng: &mut Rng) -> (r: (SigningNonces, SigningCommitments))
{
    let (n, c) = frost_secp256k1::round1::commit(&share.inner, &mut rng.inner);
    (SigningNonces { inner: n }, SigningCommitments { inner: c })
}

/// Relies on `SigningPackage::new`, keyed by each signer's identifier.
#[verifier::external_body]
pub(crate) fn new_signing_package(signers: &Vec<Signer>, message: &Vec<u8>) -> (r: SigningPackage)
{
    let commitments = signers.iter().map(|s| (s.identifier.inner, s.commitments.inner)).collect();
    SigningPackage { inner: frost_secp256k1::SigningPackage::new(commitments, message) }
}

/// Relies on `round2::sign`.
#[verifier::external_body]
pub(crate) fn sign_share(package: &SigningPackage, nonces: &SigningNonces, key: &KeyPackage) -> (r: Option<SignatureShare>)
{
    frost_secp256k1::round2::sign(&package.inner, &nonces.inner, &key.inner).ok().map(|s| SignatureShare { inner: s })
}

/// Relies on `aggregate`, with the shares keyed by each participant's identifier.
#[verifier::external_body]
pub(crate) fn aggregate(package: &SigningPackage, partials: &Vec<PartialSignature>, keys: &PublicKeyPackage) -> (r: Option<Signature>)
{
    let shares = partials.iter().map(|p| (p.identifier.inner, p.share.inner)).collect();
    frost_secp256k1::aggregate(&package.inner, &shares, &keys.inner).ok().map(|s| Signature { inner: s })
}


/// Relies on `Signature::serialize`: a compressed point and a scalar, 33 and
/// 32 bytes.
#[verifier::external_body]
pub(crate) fn signature_to_bytes(s: &Signature) -> (r: Option<Vec<u8>>)
    ensures
        r is Some ==> r->Some_0@.len() == 65,
{
    s.inner.serialize().ok()
}


/// Relies on `PublicKeyPackage::deserialize`, `PublicKeyPackage::verifying_key`
/// and `VerifyingKey::serialize`: the group key of a serialized package, as
/// a compressed point of 33 bytes.
#[verifier::external_body]
pub(crate) fn package_key_bytes(b: &Vec<u8>) -> (r: Option<Vec<u8>>)
    ensures
        r is Some ==> package_parses(b@) && r->Some_0@ == group_key_of(b@) && r->Some_0@.len() == 33,
{
    let package = frost_secp256k1::keys::PublicKeyPackage::deserialize(b).ok()?;
    package.verifying_key().serialize().ok()
}

/// Relies on `VerifyingKey::deserialize`: whether the bytes are a group key.
#[verifier::external_body]
pub(crate) fn key_bytes_parse(b: &Vec<u8>) -> (r: bool)
    ensures
        r == key_parses(b@),
{
    frost_secp256k1::VerifyingKey::deserialize(b).is_ok()
}

/// Relies on `Signature::deserialize`: whether the bytes are a signature.
#[verifier::external_body]
pub(crate) fn signature_bytes_parse(b: &Vec<u8>) -> (r: bool)
    ensures
        r == signature_parses(b@),
{
    frost_secp256k1::Signature::deserialize(b).is_ok()
}

/// Relies on `VerifyingKey::verify`, on the key and signature read back from
/// their bytes by `VerifyingKey::deserialize` and `Signature::deserialize`.
#[verifier::external_body]
pub(crate) fn verify_bytes(key: &Vec<u8>, message: &Vec<u8>, signature: &Vec<u8>) -> (r: bool)
    ensures
        r == signature_valid(key@, message@, signature@),
        r ==> key_parses(key@) && signature_parses(signature@),
{
    match (frost_secp256k1::VerifyingKey::deserialize(key), frost_secp256k1::Signature::deserialize(signature)) {
        (Ok(k), Ok(s)) => k.verify(message, &s).is_ok(),
        _ => false,
    }
}

} // verus!
