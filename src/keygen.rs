use vstd::prelude::*;
use crate::error::FrostError;
use crate::primitives::{deal_shares, fresh_rng, group_key_of, identifier_to_bytes, package_key_bytes,
    package_to_bytes, secret_signing_share, signing_share_to_bytes};
use crate::signing::{identifiers_distinct, keys_match, record_well_formed, share_set_verdict, ShareRecord};

verus! {

/// Length of a serialized identifier or scalar.
pub const SCALAR_LEN: usize = 32;

/// Length of a serialized (compressed) group element.
pub const ELEMENT_LEN: usize = 33;

/// The output of key generation: one record per participant and the group's
/// public material.
pub struct KeySet {
    pub shares: Vec<ShareRecord>,
    pub public_key_package: Vec<u8>,
    pub verifying_key: Vec<u8>,
}

/// A threshold that a key set of `n` participants can be split for.
pub open spec fn threshold_valid(n: int, t: int) -> bool {
    2 <= t <= n
}

/// The serialized identifier of participant `i`: the scalar `i`, big-endian,
/// in 32 bytes.
pub open spec fn identifier_encoding(i: int) -> Seq<u8> {
    Seq::new(32, |k: int| if k == 30 { (i / 256) as u8 } else if k == 31 { (i % 256) as u8 } else { 0u8 })
}

/// What a key set of `n` participants with threshold `t` looks like: one
/// record per participant, in order, each naming identifier `i + 1`, the
/// group key and the threshold.
pub open spec fn key_set_valid(ks: KeySet, n: int, t: int) -> bool {
    &&& ks.shares@.len() == n
    &&& ks.verifying_key@.len() == ELEMENT_LEN
    &&& ks.verifying_key@ == group_key_of(ks.public_key_package@)
    &&& forall|i: int| 0 <= i < n ==> {
        let s = #[trigger] ks.shares@[i];
        &&& s.participant_id == i + 1
        &&& s.identifier@ == identifier_encoding(i + 1)
        &&& s.signing_share@.len() == SCALAR_LEN
        &&& s.verifying_key@ == ks.verifying_key@
        &&& s.min_signers == t
    }
}

/// Checks a requested threshold against the number of participants.
pub fn check_threshold(n: u16, t: u16) -> (r: Result<(), FrostError>)
    ensures
        r is Ok <==> threshold_valid(n as int, t as int),
        r is Err ==> r == Err::<(), FrostError>(FrostError::InvalidThreshold),
{
    if t < 2 || t > n {
        Err(FrostError::InvalidThreshold)
    } else {
        Ok(())
    }
}

/// The serialized identifier of participant `i`.
pub fn identifier_bytes(i: u16) -> (r: Vec<u8>)
    ensures
        r@ == identifier_encoding(i as int),
{
    let mut r: Vec<u8> = Vec::new();
    let mut k: usize = 0;
    while k < 30
        invariant
            k <= 30,
            r@.len() == k,
            forall|j: int| 0 <= j < k ==> r@[j] == 0u8,
        decreases 30 - k,
    {
        r.push(0u8);
        k = k + 1;
    }
    r.push((i / 256) as u8);
    r.push((i % 256) as u8);
    assert(r@ =~= identifier_encoding(i as int));
    r
}

/// Whether two byte strings are equal.
pub fn bytes_equal(a: &Vec<u8>, b: &Vec<u8>) -> (r: bool)
    ensures
        r == (a@ == b@),
{
    if a.len() != b.len() {
        return false;
    }
    let mut k: usize = 0;
    while k < a.len()
        invariant
            a@.len() == b@.len(),
            k <= a@.len(),
            forall|j: int| 0 <= j < k ==> a@[j] == b@[j],
        decreases a@.len() - k,
    {
        if a[k] != b[k] {
            return false;
        }
        k = k + 1;
    }
    assert(a@ =~= b@);
    true
}

/// Splits a fresh group secret into `n` shares, any `t` of which can sign,
/// and describes each share in a record.
pub fn generate_keys(n: u16, t: u16) -> (r: Result<KeySet, FrostError>)
    ensures
        !threshold_valid(n as int, t as int) ==> r is Err && r->Err_0 == FrostError::InvalidThreshold,
        r is Err && r->Err_0 == FrostError::InvalidThreshold ==> !threshold_valid(n as int, t as int),
        r is Ok ==> threshold_valid(n as int, t as int) && key_set_valid(r->Ok_0, n as int, t as int),
        r is Err ==> r->Err_0 == FrostError::InvalidThreshold || r->Err_0 == FrostError::GenerationFailure
            || r->Err_0 == FrostError::SerializationFailure,
{
    if check_threshold(n, t).is_err() {
        return Err(FrostError::InvalidThreshold);
    }
    let mut rng = fresh_rng();
    let (dealt, package) = match deal_shares(n, t, &mut rng) {
        Some(d) => d,
        None => return Err(FrostError::GenerationFailure),
    };
    if dealt.len() != n as usize {
        return Err(FrostError::GenerationFailure);
    }
    let public_key_package = match package_to_bytes(&package) {
        Some(b) => b,
        None => return Err(FrostError::SerializationFailure),
    };
    let verifying_key = match package_key_bytes(&public_key_package) {
        Some(b) => b,
        None => return Err(FrostError::SerializationFailure),
    };
    let mut shares: Vec<ShareRecord> = Vec::new();
    let mut i: usize = 0;
    while i < dealt.len()
        invariant
            dealt@.len() == n,
            threshold_valid(n as int, t as int),
            verifying_key@.len() == ELEMENT_LEN,
            verifying_key@ == group_key_of(public_key_package@),
            i <= dealt@.len(),
            shares@.len() == i,
            forall|j: int| 0 <= j < i ==> {
                let s = #[trigger] shares@[j];
                &&& s.participant_id == j + 1
                &&& s.identifier@ == identifier_encoding(j + 1)
                &&& s.signing_share@.len() == SCALAR_LEN
                &&& s.verifying_key@ == verifying_key@
                &&& s.min_signers == t
            },
        decreases dealt@.len() - i,
    {
        let participant_id = (i + 1) as u16;
        let identifier = identifier_to_bytes(&dealt[i].0);
        let expected = identifier_bytes(participant_id);
        if !bytes_equal(&identifier, &expected) {
            return Err(FrostError::GenerationFailure);
        }
        let signing_share = signing_share_to_bytes(&secret_signing_share(&dealt[i].1));
        shares.push(ShareRecord {
            participant_id,
            identifier,
            signing_share,
            verifying_key: verifying_key.clone(),
            min_signers: t,
        });
        i = i + 1;
    }
    let ks = KeySet { shares, public_key_package, verifying_key };
    assert(key_set_valid(ks, n as int, t as int));
    Ok(ks)
}

proof fn lemma_identifier_encoding_injective(i: int, j: int)
    requires
        0 <= i < 65536,
        0 <= j < 65536,
        identifier_encoding(i) == identifier_encoding(j),
    ensures
        i == j,
{
    let e = identifier_encoding(i);
    let f = identifier_encoding(j);
    assert(e[30] == f[30] && e[31] == f[31]);
    assert(0 <= i / 256 < 256 && 0 <= j / 256 < 256) by (nonlinear_arith)
        requires 0 <= i < 65536, 0 <= j < 65536;
    assert(e[30] == i / 256 && f[30] == j / 256);
    assert(e[31] == i % 256 && f[31] == j % 256);
    assert(i == 256 * (i / 256) + i % 256 && j == 256 * (j / 256) + j % 256) by (nonlinear_arith);
}

/// Key generation names every participant `1..n` exactly once: the records'
/// participant numbers are `1..n` in order, and no two records carry the
/// same serialized identifier.
pub proof fn generated_identifiers_distinct(ks: KeySet, n: u16, t: u16)
    requires
        key_set_valid(ks, n as int, t as int),
    ensures
        ks.shares@.len() == n,
        forall|i: int| 0 <= i < n ==> (#[trigger] ks.shares@[i]).participant_id == i + 1,
        forall|i: int, j: int| 0 <= i < n && 0 <= j < n && i != j
            ==> (#[trigger] ks.shares@[i]).identifier@ != (#[trigger] ks.shares@[j]).identifier@,
{
    assert forall|i: int, j: int| 0 <= i < n && 0 <= j < n && i != j
        implies (#[trigger] ks.shares@[i]).identifier@ != (#[trigger] ks.shares@[j]).identifier@ by {
        if ks.shares@[i].identifier@ == ks.shares@[j].identifier@ {
            lemma_identifier_encoding_injective(i + 1, j + 1);
        }
    }
}

/// The records of `ks` picked at the positions `picks`.
pub open spec fn pick_shares(ks: KeySet, picks: Seq<int>) -> Seq<ShareRecord> {
    picks.map_values(|k: int| ks.shares@[k])
}

/// Any `t` or more distinct shares of a generated key set pass every check
/// that signing makes before it starts, and all name the group key of the
/// set's public key package.
pub proof fn generated_shares_accepted(ks: KeySet, n: u16, t: u16, picks: Seq<int>)
    requires
        key_set_valid(ks, n as int, t as int),
        picks.len() >= t,
        forall|a: int| 0 <= a < picks.len() ==> 0 <= #[trigger] picks[a] < n,
        forall|a: int, b: int| 0 <= a < b < picks.len() ==> #[trigger] picks[a] != #[trigger] picks[b],
    ensures
        share_set_verdict(pick_shares(ks, picks), t as int) == Ok::<(), FrostError>(()),
        keys_match(pick_shares(ks, picks), ks.verifying_key@),
        keys_match(pick_shares(ks, picks), group_key_of(ks.public_key_package@)),
{
    let s = pick_shares(ks, picks);
    assert forall|i: int| 0 <= i < s.len() implies record_well_formed(#[trigger] s[i]) by {
        assert(ks.shares@[picks[i]] == s[i]);
    }
    assert forall|i: int, j: int| 0 <= i < j < s.len() implies (#[trigger] s[i]).identifier@ != (#[trigger] s[j]).identifier@ by {
        assert(ks.shares@[picks[i]] == s[i]);
        assert(ks.shares@[picks[j]] == s[j]);
        if s[i].identifier@ == s[j].identifier@ {
            lemma_identifier_encoding_injective(picks[i] + 1, picks[j] + 1);
        }
    }
    assert(identifiers_distinct(s));
    assert forall|i: int| 0 <= i < s.len() implies (#[trigger] s[i]).verifying_key@ == ks.verifying_key@ by {
        assert(ks.shares@[picks[i]] == s[i]);
    }
}

} // verus!
