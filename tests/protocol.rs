use frost_threshold::encoding::{decode_hex, encode_hex};
use frost_threshold::error::FrostError;
use frost_threshold::keygen::{bytes_equal, check_threshold, generate_keys, identifier_bytes, KeySet};
use frost_threshold::primitives::PublicKeyPackage;
use frost_threshold::signing::{
    aggregate_and_check, assemble_package, check_group_key, check_share_set, parse_public_key_package, round_one, round_two,
    settle, sign, ShareRecord,
};
use frost_threshold::verification::verify_signature;

fn record_copy(r: &ShareRecord) -> ShareRecord {
    ShareRecord {
        participant_id: r.participant_id,
        identifier: r.identifier.clone(),
        signing_share: r.signing_share.clone(),
        verifying_key: r.verifying_key.clone(),
        min_signers: r.min_signers,
    }
}

fn pick(ks: &KeySet, ids: &[u16]) -> Vec<ShareRecord> {
    ids.iter().map(|&i| record_copy(&ks.shares[(i - 1) as usize])).collect()
}

#[test]
fn generate_three_of_two_has_ordered_identifiers() {
    let ks = generate_keys(3, 2).unwrap();
    assert_eq!(ks.shares.len(), 3);
    for (k, s) in ks.shares.iter().enumerate() {
        assert_eq!(s.participant_id as usize, k + 1);
        assert_eq!(s.identifier, identifier_bytes((k + 1) as u16));
        assert_eq!(s.signing_share.len(), 32);
        assert_eq!(s.verifying_key, ks.verifying_key);
        assert_eq!(s.min_signers, 2);
    }
    assert_eq!(ks.verifying_key.len(), 33);
    assert_ne!(ks.shares[0].identifier, ks.shares[1].identifier);
}

#[test]
fn generate_many_participants_distinct() {
    let ks = generate_keys(7, 4).unwrap();
    assert_eq!(ks.shares.len(), 7);
    for i in 0..7 {
        for j in 0..7 {
            if i != j {
                assert_ne!(ks.shares[i].identifier, ks.shares[j].identifier);
            }
        }
    }
}

#[test]
fn generate_rejects_bad_thresholds() {
    assert_eq!(generate_keys(3, 1).err(), Some(FrostError::InvalidThreshold));
    assert_eq!(generate_keys(3, 4).err(), Some(FrostError::InvalidThreshold));
    assert_eq!(generate_keys(1, 0).err(), Some(FrostError::InvalidThreshold));
    assert!(generate_keys(2, 2).is_ok());
}

#[test]
fn threshold_check_values() {
    assert_eq!(check_threshold(3, 2), Ok(()));
    assert_eq!(check_threshold(3, 3), Ok(()));
    assert_eq!(check_threshold(3, 1), Err(FrostError::InvalidThreshold));
    assert_eq!(check_threshold(2, 3), Err(FrostError::InvalidThreshold));
}

#[test]
fn identifier_bytes_is_big_endian() {
    let b = identifier_bytes(258);
    assert_eq!(b.len(), 32);
    assert_eq!(b[30], 1);
    assert_eq!(b[31], 2);
    assert!(b[..30].iter().all(|&x| x == 0));
    let via_frost = frost_secp256k1::Identifier::try_from(258u16).unwrap().serialize();
    assert_eq!(b, via_frost);
}

#[test]
fn bytes_equal_values() {
    assert!(bytes_equal(&vec![1, 2, 3], &vec![1, 2, 3]));
    assert!(!bytes_equal(&vec![1, 2, 3], &vec![1, 2, 4]));
    assert!(!bytes_equal(&vec![1, 2], &vec![1, 2, 3]));
    assert!(bytes_equal(&vec![], &vec![]));
}

#[test]
fn sign_hello_with_two_subsets() {
    let ks = generate_keys(3, 2).unwrap();
    let msg = b"hello".to_vec();
    let sig_a = sign(&msg, &pick(&ks, &[1, 2]), 2, &ks.public_key_package).unwrap();
    assert_eq!(verify_signature(&msg, &sig_a, &ks.verifying_key), Ok(true));
    let sig_b = sign(&msg, &pick(&ks, &[2, 3]), 2, &ks.public_key_package).unwrap();
    assert_eq!(verify_signature(&msg, &sig_b, &ks.verifying_key), Ok(true));
}

#[test]
fn every_threshold_subset_signs() {
    let ks = generate_keys(4, 3).unwrap();
    let msg = b"any message at all".to_vec();
    let subsets: [&[u16]; 5] = [&[1, 2, 3], &[1, 2, 4], &[1, 3, 4], &[2, 3, 4], &[1, 2, 3, 4]];
    for ids in subsets.iter() {
        let sig = sign(&msg, &pick(&ks, ids), 3, &ks.public_key_package).unwrap();
        assert_eq!(verify_signature(&msg, &sig, &ks.verifying_key), Ok(true));
    }
}

#[test]
fn sign_empty_message() {
    let ks = generate_keys(2, 2).unwrap();
    let msg: Vec<u8> = Vec::new();
    let sig = sign(&msg, &pick(&ks, &[1, 2]), 2, &ks.public_key_package).unwrap();
    assert_eq!(verify_signature(&msg, &sig, &ks.verifying_key), Ok(true));
}

#[test]
fn changed_message_does_not_verify() {
    let ks = generate_keys(3, 2).unwrap();
    let msg = b"hello".to_vec();
    let sig = sign(&msg, &pick(&ks, &[1, 3]), 2, &ks.public_key_package).unwrap();
    let mut other = msg.clone();
    other[0] ^= 1;
    assert_eq!(verify_signature(&other, &sig, &ks.verifying_key), Ok(false));
}

#[test]
fn signature_under_another_key_does_not_verify() {
    let ks = generate_keys(3, 2).unwrap();
    let other = generate_keys(3, 2).unwrap();
    let msg = b"hello".to_vec();
    let sig = sign(&msg, &pick(&ks, &[1, 2]), 2, &ks.public_key_package).unwrap();
    assert_eq!(verify_signature(&msg, &sig, &other.verifying_key), Ok(false));
}

#[test]
fn five_of_three_with_two_shares_is_insufficient() {
    let ks = generate_keys(5, 3).unwrap();
    let r = sign(&b"hello".to_vec(), &pick(&ks, &[1, 2]), 3, &ks.public_key_package);
    assert_eq!(r, Err(FrostError::InsufficientShares));
}

#[test]
fn insufficient_before_anything_is_parsed() {
    let garbage = ShareRecord {
        participant_id: 1,
        identifier: vec![1],
        signing_share: vec![],
        verifying_key: vec![],
        min_signers: 2,
    };
    let r = sign(&b"m".to_vec(), &vec![garbage], 2, &vec![0xde, 0xad]);
    assert_eq!(r, Err(FrostError::InsufficientShares));
}

#[test]
fn malformed_share_is_rejected() {
    let ks = generate_keys(3, 2).unwrap();
    let mut shares = pick(&ks, &[1, 2]);
    shares[1].signing_share.pop();
    assert_eq!(check_share_set(&shares, 2), Err(FrostError::MalformedInput));
    assert_eq!(sign(&b"m".to_vec(), &shares, 2, &ks.public_key_package), Err(FrostError::MalformedInput));
}

#[test]
fn duplicate_identifier_is_a_mismatch() {
    let ks = generate_keys(3, 2).unwrap();
    let shares = pick(&ks, &[2, 2]);
    assert_eq!(check_share_set(&shares, 2), Err(FrostError::KeySetMismatch));
    assert_eq!(sign(&b"m".to_vec(), &shares, 2, &ks.public_key_package), Err(FrostError::KeySetMismatch));
}

#[test]
fn shares_of_another_key_set_are_a_mismatch() {
    let ks = generate_keys(3, 2).unwrap();
    let other = generate_keys(3, 2).unwrap();
    let shares = pick(&other, &[1, 2]);
    assert_eq!(check_share_set(&shares, 2), Ok(()));
    assert!(!check_group_key(&shares, &ks.verifying_key));
    assert!(check_group_key(&shares, &other.verifying_key));
    assert_eq!(sign(&b"m".to_vec(), &shares, 2, &ks.public_key_package), Err(FrostError::KeySetMismatch));
}

#[test]
fn unparsable_package_is_a_parse_failure() {
    let ks = generate_keys(3, 2).unwrap();
    let shares = pick(&ks, &[1, 2]);
    let r = sign(&b"m".to_vec(), &shares, 2, &vec![1, 2, 3]);
    assert_eq!(r, Err(FrostError::ParseFailure));
}

#[test]
fn zero_identifier_is_a_parse_failure() {
    let ks = generate_keys(3, 2).unwrap();
    let mut shares = pick(&ks, &[1, 2]);
    shares[0].identifier = vec![0; 32];
    let r = sign(&b"m".to_vec(), &shares, 2, &ks.public_key_package);
    assert_eq!(r, Err(FrostError::ParseFailure));
}

#[test]
fn partial_sign_failure_names_participant() {
    let ks = generate_keys(3, 2).unwrap();
    let mut shares = pick(&ks, &[1, 3]);
    shares[1].min_signers = 3;
    let r = sign(&b"m".to_vec(), &shares, 2, &ks.public_key_package);
    assert_eq!(r, Err(FrostError::PartialSignFailure { participant: 3 }));
}

fn package_of(ks: &KeySet) -> PublicKeyPackage {
    parse_public_key_package(&ks.public_key_package).unwrap()
}

#[test]
fn tampered_share_never_yields_a_signature() {
    let ks = generate_keys(3, 2).unwrap();
    let keys = package_of(&ks);
    let shares = pick(&ks, &[1, 2]);
    let msg = b"hello".to_vec();
    let signers_a = round_one(&shares, &keys).unwrap();
    let signers_b = round_one(&shares, &keys).unwrap();
    let package_a = assemble_package(&signers_a, &msg);
    let package_b = assemble_package(&signers_b, &msg);
    let mut partials_a = round_two(&signers_a, &package_a).unwrap();
    let mut partials_b = round_two(&signers_b, &package_b).unwrap();
    std::mem::swap(&mut partials_a[0], &mut partials_b[0]);
    let r = aggregate_and_check(&package_a, &partials_a, &keys, &ks.verifying_key, &msg);
    assert!(
        r == Err(FrostError::AggregationFailure) || r == Err(FrostError::AggregationInconsistency),
        "{:?}",
        r
    );
}

#[test]
fn step_by_step_session_signs() {
    let ks = generate_keys(3, 2).unwrap();
    let keys = package_of(&ks);
    let shares = pick(&ks, &[3, 1]);
    let msg = b"step".to_vec();
    let signers = round_one(&shares, &keys).unwrap();
    assert_eq!(signers.len(), 2);
    assert_eq!(signers[0].participant_id(), 3);
    let package = assemble_package(&signers, &msg);
    let partials = round_two(&signers, &package).unwrap();
    assert_eq!(partials[1].participant_id, 1);
    let sig = aggregate_and_check(&package, &partials, &keys, &ks.verifying_key, &msg).unwrap();
    assert_eq!(verify_signature(&msg, &sig, &ks.verifying_key), Ok(true));
}

#[test]
fn settle_values() {
    assert_eq!(settle(false, true, true), Err(FrostError::AggregationFailure));
    assert_eq!(settle(true, false, true), Err(FrostError::AggregationInconsistency));
    assert_eq!(settle(true, true, false), Err(FrostError::SerializationFailure));
    assert_eq!(settle(true, true, true), Ok(()));
}

#[test]
fn verify_rejects_wrong_lengths() {
    let ks = generate_keys(2, 2).unwrap();
    assert_eq!(verify_signature(&vec![], &vec![0; 64], &ks.verifying_key), Err(FrostError::MalformedInput));
    assert_eq!(verify_signature(&vec![], &vec![0; 65], &vec![2; 32]), Err(FrostError::MalformedInput));
}

#[test]
fn verify_rejects_non_points() {
    let ks = generate_keys(2, 2).unwrap();
    assert_eq!(verify_signature(&vec![], &vec![0xff; 65], &ks.verifying_key), Err(FrostError::ParseFailure));
    let msg = b"x".to_vec();
    let sig = sign(&msg, &pick(&ks, &[1, 2]), 2, &ks.public_key_package).unwrap();
    assert_eq!(verify_signature(&msg, &sig, &vec![0xff; 33]), Err(FrostError::ParseFailure));
}

#[test]
fn hex_encoding_values() {
    assert_eq!(encode_hex(&vec![0x00, 0xff, 0x10, 0xab]), "00ff10ab");
    assert_eq!(encode_hex(&vec![]), "");
    assert_eq!(decode_hex("00ff10ab"), Ok(vec![0x00, 0xff, 0x10, 0xab]));
    assert_eq!(decode_hex("0AfF"), Ok(vec![0x0a, 0xff]));
    assert_eq!(decode_hex("abc"), Err(FrostError::MalformedInput));
    assert_eq!(decode_hex("zz"), Err(FrostError::MalformedInput));
}

#[test]
fn hex_round_trips_key_material() {
    let ks = generate_keys(3, 2).unwrap();
    let msg = b"round trip".to_vec();
    let sig = sign(&msg, &pick(&ks, &[1, 2]), 2, &ks.public_key_package).unwrap();
    let fields: Vec<&Vec<u8>> = vec![
        &ks.shares[0].identifier,
        &ks.shares[0].signing_share,
        &ks.verifying_key,
        &ks.public_key_package,
        &sig,
    ];
    for f in fields {
        assert_eq!(&decode_hex(&encode_hex(f)).unwrap(), f);
    }
}

#[test]
fn byte_forms_round_trip_through_primitives() {
    let ks = generate_keys(3, 2).unwrap();
    let s = &ks.shares[1];
    let id = frost_secp256k1::Identifier::deserialize(&s.identifier).unwrap();
    assert_eq!(id.serialize(), s.identifier);
    let share = frost_secp256k1::keys::SigningShare::deserialize(&s.signing_share).unwrap();
    assert_eq!(share.serialize(), s.signing_share);
    let vs = frost_secp256k1::keys::VerifyingShare::from(share);
    let vs_bytes = vs.serialize().unwrap();
    assert_eq!(frost_secp256k1::keys::VerifyingShare::deserialize(&vs_bytes).unwrap().serialize().unwrap(), vs_bytes);
    let pkg = frost_secp256k1::keys::PublicKeyPackage::deserialize(&ks.public_key_package).unwrap();
    assert_eq!(pkg.serialize().unwrap(), ks.public_key_package);
    let msg = b"bytes".to_vec();
    let sig = sign(&msg, &pick(&ks, &[2, 3]), 2, &ks.public_key_package).unwrap();
    assert_eq!(sig.len(), 65);
    let parsed = frost_secp256k1::Signature::deserialize(&sig).unwrap();
    assert_eq!(parsed.serialize().unwrap(), sig);
}

#[test]
fn empty_share_set_with_zero_threshold_is_an_error() {
    let ks = generate_keys(2, 2).unwrap();
    let r = sign(&b"m".to_vec(), &Vec::new(), 0, &ks.public_key_package);
    assert!(r.is_err());
}

#[test]
fn aggregate_and_check_refuses_a_foreign_group_key() {
    let ks = generate_keys(3, 2).unwrap();
    let other = generate_keys(3, 2).unwrap();
    let keys = package_of(&ks);
    let msg = b"key".to_vec();
    let signers = round_one(&pick(&ks, &[1, 2]), &keys).unwrap();
    let package = assemble_package(&signers, &msg);
    let partials = round_two(&signers, &package).unwrap();
    let r = aggregate_and_check(&package, &partials, &keys, &other.verifying_key, &msg);
    assert_eq!(r, Err(FrostError::AggregationInconsistency));
}

#[test]
fn invalid_signing_share_scalar_is_a_parse_failure() {
    let ks = generate_keys(3, 2).unwrap();
    let mut shares = pick(&ks, &[1, 2]);
    shares[1].signing_share = vec![0xff; 32];
    let r = sign(&b"m".to_vec(), &shares, 2, &ks.public_key_package);
    assert_eq!(r, Err(FrostError::ParseFailure));
}
