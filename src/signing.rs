use vstd::prelude::*;
use crate::error::FrostError;
use crate::keygen::{bytes_equal, ELEMENT_LEN, SCALAR_LEN};
use crate::primitives::{aggregate, commit, derive_verifying_share, fresh_rng, group_key_of,
    identifier_from_bytes, identifier_parses, key_parses, signature_parses, key_package_identifier, new_key_package,
    new_signing_package, package_from_bytes, package_group_key, package_key_bytes, package_parses,
    scalar_parses, sign_share, signature_to_bytes, signature_valid, signing_share_from_bytes,
    verify_bytes, Identifier, KeyPackage, PublicKeyPackage, SignatureShare, SigningCommitments,
    SigningNonces, SigningPackage};

verus! {

/// A participant's share as it is stored and handed to the coordinator.
pub struct ShareRecord {
    /// The participant's number, from 1.
    pub participant_id: u16,
    /// The serialized identifier.
    pub identifier: Vec<u8>,
    /// The serialized secret scalar.
    pub signing_share: Vec<u8>,
    /// The serialized group key that the share belongs to.
    pub verifying_key: Vec<u8>,
    /// The threshold that the key set was split with.
    pub min_signers: u16,
}

/// A record whose byte fields have the ciphersuite's widths.
pub open spec fn record_well_formed(r: ShareRecord) -> bool {
    &&& r.identifier@.len() == SCALAR_LEN
    &&& r.signing_share@.len() == SCALAR_LEN
    &&& r.verifying_key@.len() == ELEMENT_LEN
}

/// No identifier occurs twice.
pub open spec fn identifiers_distinct(s: Seq<ShareRecord>) -> bool {
    forall|i: int, j: int| 0 <= i < j < s.len() ==> (#[trigger] s[i]).identifier@ != (#[trigger] s[j]).identifier@
}

/// Every record names the group key `key`.
pub open spec fn keys_match(s: Seq<ShareRecord>, key: Seq<u8>) -> bool {
    forall|i: int| 0 <= i < s.len() ==> (#[trigger] s[i]).verifying_key@ == key
}

/// What the checks that need no cryptography say of a set of shares, in the
/// order in which they are made.
pub open spec fn share_set_verdict(s: Seq<ShareRecord>, threshold: int) -> Result<(), FrostError> {
    if s.len() < threshold {
        Err(FrostError::InsufficientShares)
    } else if !(forall|i: int| 0 <= i < s.len() ==> record_well_formed(#[trigger] s[i])) {
        Err(FrostError::MalformedInput)
    } else if !identifiers_distinct(s) {
        Err(FrostError::KeySetMismatch)
    } else {
        Ok(())
    }
}

/// Checks the count, the field widths and the distinctness of identifiers of
/// a set of shares.
pub fn check_share_set(shares: &Vec<ShareRecord>, threshold: u16) -> (r: Result<(), FrostError>)
    ensures
        r == share_set_verdict(shares@, threshold as int),
{
    if shares.len() < threshold as usize {
        return Err(FrostError::InsufficientShares);
    }
    let mut i: usize = 0;
    while i < shares.len()
        invariant
            i <= shares@.len(),
            shares@.len() >= threshold,
            forall|j: int| 0 <= j < i ==> record_well_formed(#[trigger] shares@[j]),
        decreases shares@.len() - i,
    {
        let r = &shares[i];
        if r.identifier.len() != SCALAR_LEN || r.signing_share.len() != SCALAR_LEN
            || r.verifying_key.len() != ELEMENT_LEN {
            assert(!record_well_formed(shares@[i as int]));
            return Err(FrostError::MalformedInput);
        }
        i = i + 1;
    }
    let mut i: usize = 0;
    while i < shares.len()
        invariant
            i <= shares@.len(),
            forall|a: int, b: int| 0 <= a < b < i ==> (#[trigger] shares@[a]).identifier@ != (#[trigger] shares@[b]).identifier@,
            forall|j: int| 0 <= j < shares@.len() ==> record_well_formed(#[trigger] shares@[j]),
            shares@.len() >= threshold,
        decreases shares@.len() - i,
    {
        let mut j: usize = 0;
        while j < i
            invariant
                i < shares@.len(),
                j <= i,
                shares@.len() >= threshold,
                forall|k: int| 0 <= k < shares@.len() ==> record_well_formed(#[trigger] shares@[k]),
                forall|a: int| 0 <= a < j ==> (#[trigger] shares@[a]).identifier@ != shares@[i as int].identifier@,
            decreases i - j,
        {
            if bytes_equal(&shares[j].identifier, &shares[i].identifier) {
                assert(shares@[j as int].identifier@ == shares@[i as int].identifier@);
                assert(!identifiers_distinct(shares@));
                return Err(FrostError::KeySetMismatch);
            }
            j = j + 1;
        }
        i = i + 1;
    }
    Ok(())
}

/// Whether every record names the group key `key`.
pub fn check_group_key(shares: &Vec<ShareRecord>, key: &Vec<u8>) -> (r: bool)
    ensures
        r == keys_match(shares@, key@),
{
    let mut i: usize = 0;
    while i < shares.len()
        invariant
            i <= shares@.len(),
            forall|j: int| 0 <= j < i ==> (#[trigger] shares@[j]).verifying_key@ == key@,
        decreases shares@.len() - i,
    {
        if !bytes_equal(&shares[i].verifying_key, key) {
            return false;
        }
        i = i + 1;
    }
    true
}

/// Both secret fields of a record can be read back.
pub open spec fn record_parses(r: ShareRecord) -> bool {
    identifier_parses(r.identifier@) && scalar_parses(r.signing_share@)
}

/// Every record of the set can be read back.
pub open spec fn all_records_parse(s: Seq<ShareRecord>) -> bool {
    forall|i: int| 0 <= i < s.len() ==> record_parses(#[trigger] s[i])
}

/// One participant after round one: its key package with the nonces and
/// commitments that belong to it, kept side by side so they cannot be paired
/// with another participant's.
pub struct Signer {
    pub(crate) participant_id: u16,
    pub(crate) identifier: Identifier,
    pub(crate) identifier_bytes: Ghost<Seq<u8>>,
    pub(crate) key_package: KeyPackage,
    pub(crate) nonces: SigningNonces,
    pub(crate) commitments: SigningCommitments,
}

impl Signer {
    /// The number of the participant this signer acts for.
    pub closed spec fn participant(&self) -> u16 {
        self.participant_id
    }

    /// The serialized identifier this signer's key package, nonces and
    /// commitments were made for.
    pub closed spec fn identifier_view(&self) -> Seq<u8> {
        self.identifier_bytes@
    }

    /// The number of the participant this signer acts for.
    pub fn participant_id(&self) -> (r: u16)
        ensures
            r == self.participant(),
    {
        self.participant_id
    }
}

/// One participant's round-two output, with the serialized identifier of the
/// signer that produced it.
pub struct PartialSignature {
    pub participant_id: u16,
    pub identifier: Identifier,
    pub identifier_bytes: Ghost<Seq<u8>>,
    pub share: SignatureShare,
}

/// The package of one session: the message and the commitments of the
/// signers, keyed by their identifiers.
pub struct SessionPackage {
    pub(crate) package: SigningPackage,
    pub(crate) message: Ghost<Seq<u8>>,
    pub(crate) identifiers: Ghost<Seq<Seq<u8>>>,
}

impl SessionPackage {
    /// The message that every signer signs.
    pub closed spec fn message_view(&self) -> Seq<u8> {
        self.message@
    }

    /// The serialized identifiers that key the commitments, in signer order.
    pub closed spec fn identifiers_view(&self) -> Seq<Seq<u8>> {
        self.identifiers@
    }
}

/// Reads a serialized public key package.
pub fn parse_public_key_package(bytes: &Vec<u8>) -> (r: Result<PublicKeyPackage, FrostError>)
    ensures
        r is Ok <==> package_parses(bytes@),
        r matches Err(e) ==> e == FrostError::ParseFailure,
{
    match package_from_bytes(bytes) {
        Some(p) => Ok(p),
        None => Err(FrostError::ParseFailure),
    }
}

/// Round one: parses each share, binds it to the group key and draws fresh
/// nonces and commitments for it, once per share.
pub fn round_one(shares: &Vec<ShareRecord>, keys: &PublicKeyPackage) -> (r: Result<Vec<Signer>, FrostError>)
    ensures
        r is Ok <==> all_records_parse(shares@),
        r matches Ok(v) ==> v@.len() == shares@.len()
            && forall|i: int| 0 <= i < v@.len() ==> (#[trigger] v@[i]).participant() == shares@[i].participant_id
                && v@[i].identifier_view() == shares@[i].identifier@,
        r matches Err(e) ==> e == FrostError::ParseFailure,
{
    let group_key = package_group_key(keys);
    let mut rng = fresh_rng();
    let mut signers: Vec<Signer> = Vec::new();
    let mut i: usize = 0;
    while i < shares.len()
        invariant
            i <= shares@.len(),
            signers@.len() == i,
            forall|j: int| 0 <= j < i ==> record_parses(#[trigger] shares@[j]),
            forall|j: int| 0 <= j < i ==> (#[trigger] signers@[j]).participant() == shares@[j].participant_id
                && signers@[j].identifier_view() == shares@[j].identifier@,
        decreases shares@.len() - i,
    {
        let record = &shares[i];
        let identifier = match identifier_from_bytes(&record.identifier) {
            Some(id) => id,
            None => {
                assert(!record_parses(shares@[i as int]));
                return Err(FrostError::ParseFailure);
            },
        };
        let share = match signing_share_from_bytes(&record.signing_share) {
            Some(s) => s,
            None => {
                assert(!record_parses(shares@[i as int]));
                return Err(FrostError::ParseFailure);
            },
        };
        let verifying_share = derive_verifying_share(&share);
        let key_package = new_key_package(&identifier, &share, &verifying_share, &group_key, record.min_signers);
        let (nonces, commitments) = commit(&share, &mut rng);
        signers.push(Signer {
            participant_id: record.participant_id,
            identifier,
            identifier_bytes: Ghost(record.identifier@),
            key_package,
            nonces,
            commitments,
        });
        i = i + 1;
    }
    Ok(signers)
}

/// The package that every participant signs in round two: the message with
/// the commitments of all signers, keyed by their identifiers.
pub fn assemble_package(signers: &Vec<Signer>, message: &Vec<u8>) -> (r: SessionPackage)
    ensures
        r.message_view() == message@,
        r.identifiers_view() == signers@.map_values(|s: Signer| s.identifier_view()),
{
    SessionPackage {
        package: new_signing_package(signers, message),
        message: Ghost(message@),
        identifiers: Ghost(signers@.map_values(|s: Signer| s.identifier_view())),
    }
}

/// Round two: each signer signs the shared package with its own nonces. The
/// first failure ends the session and names the participant.
pub fn round_two(signers: &Vec<Signer>, package: &SessionPackage) -> (r: Result<Vec<PartialSignature>, FrostError>)
    ensures
        r matches Ok(v) ==> v@.len() == signers@.len()
            && forall|i: int| 0 <= i < v@.len() ==> (#[trigger] v@[i]).participant_id == signers@[i].participant()
                && v@[i].identifier_bytes@ == signers@[i].identifier_view(),
        r matches Err(e) ==> exists|k: int| 0 <= k < signers@.len()
            && e == (FrostError::PartialSignFailure { participant: (#[trigger] signers@[k]).participant() }),
{
    let mut partials: Vec<PartialSignature> = Vec::new();
    let mut i: usize = 0;
    while i < signers.len()
        invariant
            i <= signers@.len(),
            partials@.len() == i,
            forall|j: int| 0 <= j < i ==> (#[trigger] partials@[j]).participant_id == signers@[j].participant()
                && partials@[j].identifier_bytes@ == signers@[j].identifier_view(),
        decreases signers@.len() - i,
    {
        let signer = &signers[i];
        match sign_share(&package.package, &signer.nonces, &signer.key_package) {
            Some(share) => {
                let identifier = key_package_identifier(&signer.key_package);
                partials.push(PartialSignature {
                    participant_id: signer.participant_id,
                    identifier,
                    identifier_bytes: Ghost(signer.identifier_bytes@),
                    share,
                });
            },
            None => {
                assert(signers@[i as int] == *signer);
                return Err(FrostError::PartialSignFailure { participant: signer.participant_id });
            },
        }
        i = i + 1;
    }
    Ok(partials)
}

/// How a session ends once the shares were combined: a signature that did
/// not combine, or that combined but does not verify, is never returned.
pub open spec fn session_outcome(combined: bool, self_checked: bool, written: bool) -> Result<(), FrostError> {
    if !combined {
        Err(FrostError::AggregationFailure)
    } else if !written {
        Err(FrostError::SerializationFailure)
    } else if !self_checked {
        Err(FrostError::AggregationInconsistency)
    } else {
        Ok(())
    }
}

/// Combines the partial signatures, writes the result out and checks the
/// written signature against the serialized group key and the message. Only
/// a signature that passes that check is returned.
pub fn aggregate_and_check(
    package: &SessionPackage,
    partials: &Vec<PartialSignature>,
    keys: &PublicKeyPackage,
    group_key: &Vec<u8>,
    message: &Vec<u8>,
) -> (r: Result<Vec<u8>, FrostError>)
    ensures
        r matches Ok(sig) ==> signature_valid(group_key@, message@, sig@) && sig@.len() == 65
            && signature_parses(sig@) && key_parses(group_key@),
        r matches Err(e) ==> e == FrostError::AggregationFailure || e == FrostError::AggregationInconsistency
            || e == FrostError::SerializationFailure,
{
    let combined = aggregate(&package.package, partials, keys);
    let written = match &combined {
        Some(signature) => signature_to_bytes(signature),
        None => None,
    };
    let verified = match &written {
        Some(bytes) => verify_bytes(group_key, message, bytes),
        None => false,
    };
    match settle(combined.is_some(), verified, written.is_some()) {
        Err(e) => Err(e),
        Ok(()) => match written {
            Some(b) => Ok(b),
            None => Err(FrostError::SerializationFailure),
        },
    }
}

/// Decides how a session ends from what aggregation, the serialization and
/// the self-check reported.
pub fn settle(combined: bool, self_checked: bool, written: bool) -> (r: Result<(), FrostError>)
    ensures
        r == session_outcome(combined, self_checked, written),
{
    if !combined {
        Err(FrostError::AggregationFailure)
    } else if !written {
        Err(FrostError::SerializationFailure)
    } else if !self_checked {
        Err(FrostError::AggregationInconsistency)
    } else {
        Ok(())
    }
}

/// Signs `message` with the given shares of the key set described by the
/// serialized public key package. The signature is returned only after it
/// verified under the package's group key.
pub fn sign(message: &Vec<u8>, shares: &Vec<ShareRecord>, threshold: u16, public_key_package: &Vec<u8>) -> (r: Result<Vec<u8>, FrostError>)
    ensures
        share_set_verdict(shares@, threshold as int) matches Err(e) ==> r == Err::<Vec<u8>, FrostError>(e),
        r == Err::<Vec<u8>, FrostError>(FrostError::InsufficientShares) ==> shares@.len() < threshold,
        r == Err::<Vec<u8>, FrostError>(FrostError::MalformedInput)
            ==> share_set_verdict(shares@, threshold as int) == Err::<(), FrostError>(FrostError::MalformedInput),
        share_set_verdict(shares@, threshold as int) is Ok && !package_parses(public_key_package@)
            ==> r == Err::<Vec<u8>, FrostError>(FrostError::ParseFailure),
        share_set_verdict(shares@, threshold as int) is Ok && package_parses(public_key_package@)
            && !keys_match(shares@, group_key_of(public_key_package@))
            ==> r == Err::<Vec<u8>, FrostError>(FrostError::KeySetMismatch)
                || r == Err::<Vec<u8>, FrostError>(FrostError::SerializationFailure),
        r == Err::<Vec<u8>, FrostError>(FrostError::KeySetMismatch)
            ==> share_set_verdict(shares@, threshold as int) == Err::<(), FrostError>(FrostError::KeySetMismatch)
                || !keys_match(shares@, group_key_of(public_key_package@)),
        share_set_verdict(shares@, threshold as int) is Ok && package_parses(public_key_package@)
            && keys_match(shares@, group_key_of(public_key_package@)) && !all_records_parse(shares@)
            ==> r == Err::<Vec<u8>, FrostError>(FrostError::ParseFailure)
                || r == Err::<Vec<u8>, FrostError>(FrostError::SerializationFailure),
        r == Err::<Vec<u8>, FrostError>(FrostError::ParseFailure)
            ==> share_set_verdict(shares@, threshold as int) is Ok
                && (!package_parses(public_key_package@) || !all_records_parse(shares@)),
        r matches Ok(sig) ==> share_set_verdict(shares@, threshold as int) is Ok
            && package_parses(public_key_package@)
            && keys_match(shares@, group_key_of(public_key_package@))
            && all_records_parse(shares@)
            && signature_valid(group_key_of(public_key_package@), message@, sig@)
            && signature_parses(sig@) && key_parses(group_key_of(public_key_package@))
            && sig@.len() == 65,
        r matches Err(e) ==> e != FrostError::InvalidThreshold && e != FrostError::GenerationFailure,
{
    match check_share_set(shares, threshold) {
        Err(e) => return Err(e),
        Ok(()) => {},
    }
    let keys = match parse_public_key_package(public_key_package) {
        Ok(p) => p,
        Err(e) => return Err(e),
    };
    let key_bytes = match package_key_bytes(public_key_package) {
        Some(b) => b,
        None => return Err(FrostError::SerializationFailure),
    };
    if !check_group_key(shares, &key_bytes) {
        return Err(FrostError::KeySetMismatch);
    }
    let signers = match round_one(shares, &keys) {
        Ok(v) => v,
        Err(e) => return Err(e),
    };
    let package = assemble_package(&signers, message);
    let partials = match round_two(&signers, &package) {
        Ok(v) => v,
        Err(e) => return Err(e),
    };
    aggregate_and_check(&package, &partials, &keys, &key_bytes, message)
}

} // verus!
