use ed25519_dalek::{Signer, SigningKey};
use key_rotation::challenge::RotationProofChallenge;
use key_rotation::coordinator::{core_address, module_name, struct_name, RotationCoordinator};
use key_rotation::errors::Error;
use key_rotation::scheme::derive_auth_key;
use sha3::{Digest, Sha3_256};

fn key_from_seed(seed: u8) -> SigningKey {
    let mut b = [0u8; 32];
    b[0] = seed;
    b[31] = 0xc3;
    SigningKey::from_bytes(&b)
}

fn pk_of(sk: &SigningKey) -> Vec<u8> {
    sk.verifying_key().to_bytes().to_vec()
}

fn multi_pk_of(members: &[&SigningKey], threshold: u8) -> Vec<u8> {
    let mut v = Vec::new();
    for m in members {
        v.extend_from_slice(&m.verifying_key().to_bytes());
    }
    v.push(threshold);
    v
}

fn multi_sig_of(members: &[&SigningKey], signer_indices: &[usize], msg: &[u8]) -> Vec<u8> {
    let mut v = Vec::new();
    let mut bitmap = [0u8; 4];
    for &i in signer_indices {
        v.extend_from_slice(&members[i].sign(msg).to_bytes());
        bitmap[i / 8] |= 0x80u8 >> (i % 8);
    }
    v.extend_from_slice(&bitmap);
    v
}

fn msg_for(sequence_number: u64, originator: &[u8], current_auth_key: &[u8], new_pk: &[u8])
    -> Vec<u8> {
    let challenge = RotationProofChallenge {
        account_address: core_address(),
        module_name: module_name(),
        struct_name: struct_name(),
        sequence_number,
        originator: originator.to_vec(),
        current_auth_key: current_auth_key.to_vec(),
        new_public_key: new_pk.to_vec(),
    };
    challenge.encode()
}

/// A coordinator with one single-key account at sequence number 0, plus the
/// account's signing key and address.
fn fresh_account() -> (RotationCoordinator, SigningKey, Vec<u8>) {
    let mut coord = RotationCoordinator::new();
    let sk = key_from_seed(1);
    let pk = pk_of(&sk);
    let auth = derive_auth_key(0, &pk).unwrap();
    let address = auth.clone();
    assert!(coord.create_account(address.clone(), auth, 0));
    (coord, sk, address)
}

#[test]
fn derived_key_matches_sha3_of_key_and_scheme() {
    let sk = key_from_seed(9);
    let pk = pk_of(&sk);
    let auth = derive_auth_key(0, &pk).unwrap();
    let mut input = pk.clone();
    input.push(0u8);
    let expected: Vec<u8> = Sha3_256::digest(&input).to_vec();
    assert_eq!(auth, expected);
    assert_eq!(auth.len(), 32);
    assert_ne!(auth, pk);
}

#[test]
fn derived_key_depends_on_scheme() {
    let members = vec![key_from_seed(4)];
    let refs: Vec<&SigningKey> = members.iter().collect();
    let blob = multi_pk_of(&refs, 1);
    let auth = derive_auth_key(1, &blob).unwrap();
    let mut input = blob.clone();
    input.push(1u8);
    let expected: Vec<u8> = Sha3_256::digest(&input).to_vec();
    assert_eq!(auth, expected);
}

#[test]
fn unknown_scheme_is_rejected() {
    let (mut coord, sk, address) = fresh_account();
    let pk = pk_of(&sk);
    let r = coord.rotate_authentication_key(&address, 0, 9, &pk, 0, &pk, &[0u8; 64].to_vec(),
        &[0u8; 64].to_vec());
    assert_eq!(r.unwrap_err(), Error::UnknownScheme);
    assert_eq!(derive_auth_key(7, &pk).unwrap_err(), Error::UnknownScheme);
}

#[test]
fn unknown_target_scheme_is_rejected() {
    let (mut coord, sk, address) = fresh_account();
    let pk = pk_of(&sk);
    let current_auth = coord.current_key(&address).unwrap();
    let msg = msg_for(0, &address, &current_auth, &pk);
    let sig = sk.sign(&msg).to_bytes().to_vec();
    let r = coord.rotate_authentication_key(&address, 0, 0, &pk, 9, &pk, &sig, &sig);
    assert_eq!(r.unwrap_err(), Error::UnknownScheme);
}

#[test]
fn malformed_current_key_is_rejected() {
    let (mut coord, _sk, address) = fresh_account();
    let short = vec![1u8; 31];
    let r = coord.rotate_authentication_key(&address, 0, 0, &short, 0, &short,
        &[0u8; 64].to_vec(), &[0u8; 64].to_vec());
    assert_eq!(r.unwrap_err(), Error::MalformedKey);
    // roughly half of all 32-byte strings are no curve point; find one
    let mut undecodable = None;
    for b in 0..=255u8 {
        let mut candidate = vec![0u8; 32];
        candidate[0] = b;
        if derive_auth_key(0, &candidate).is_err() {
            undecodable = Some(candidate);
            break;
        }
    }
    let bad = undecodable.expect("some candidate must fail to decode");
    assert_eq!(derive_auth_key(0, &bad).unwrap_err(), Error::MalformedKey);
}

#[test]
fn malformed_multi_key_is_rejected() {
    let members = vec![key_from_seed(4), key_from_seed(5)];
    let refs: Vec<&SigningKey> = members.iter().collect();
    let zero_threshold = multi_pk_of(&refs, 0);
    assert_eq!(derive_auth_key(1, &zero_threshold).unwrap_err(), Error::MalformedKey);
    let too_high_threshold = multi_pk_of(&refs, 3);
    assert_eq!(derive_auth_key(1, &too_high_threshold).unwrap_err(), Error::MalformedKey);
    let truncated = vec![2u8; 40];
    assert_eq!(derive_auth_key(1, &truncated).unwrap_err(), Error::MalformedKey);
}

#[test]
fn malformed_signature_is_rejected() {
    let (mut coord, sk, address) = fresh_account();
    let pk = pk_of(&sk);
    let new_sk = key_from_seed(2);
    let new_pk = pk_of(&new_sk);
    let current_auth = coord.current_key(&address).unwrap();
    let msg = msg_for(0, &address, &current_auth, &new_pk);
    let good_new = new_sk.sign(&msg).to_bytes().to_vec();
    let short_sig = vec![0u8; 63];
    let r = coord.rotate_authentication_key(&address, 0, 0, &pk, 0, &new_pk, &short_sig,
        &good_new);
    assert_eq!(r.unwrap_err(), Error::MalformedSignature);
}

#[test]
fn dual_consent_garbage_new_signature_fails() {
    let (mut coord, sk, address) = fresh_account();
    let pk = pk_of(&sk);
    let new_sk = key_from_seed(2);
    let new_pk = pk_of(&new_sk);
    let current_auth = coord.current_key(&address).unwrap();
    let msg = msg_for(0, &address, &current_auth, &new_pk);
    let sig_current = sk.sign(&msg).to_bytes().to_vec();
    let garbage = vec![7u8; 64];
    let r = coord.rotate_authentication_key(&address, 0, 0, &pk, 0, &new_pk, &sig_current,
        &garbage);
    assert_eq!(r.unwrap_err(), Error::SignatureInvalid);
    // nothing was mutated
    assert_eq!(coord.current_key(&address).unwrap(), current_auth);
    assert_eq!(coord.rotation_event_count(&address).unwrap(), 0);
}

#[test]
fn dual_consent_garbage_current_signature_fails() {
    let (mut coord, sk, address) = fresh_account();
    let pk = pk_of(&sk);
    let new_sk = key_from_seed(2);
    let new_pk = pk_of(&new_sk);
    let current_auth = coord.current_key(&address).unwrap();
    let msg = msg_for(0, &address, &current_auth, &new_pk);
    let sig_new = new_sk.sign(&msg).to_bytes().to_vec();
    let garbage = vec![7u8; 64];
    let r = coord.rotate_authentication_key(&address, 0, 0, &pk, 0, &new_pk, &garbage, &sig_new);
    assert_eq!(r.unwrap_err(), Error::SignatureInvalid);
    assert_eq!(coord.rotation_event_count(&address).unwrap(), 0);
}

#[test]
fn account_not_found_is_reported() {
    let (mut coord, sk, _address) = fresh_account();
    let pk = pk_of(&sk);
    let stranger = vec![9u8; 32];
    let r = coord.rotate_authentication_key(&stranger, 0, 0, &pk, 0, &pk, &[0u8; 64].to_vec(),
        &[0u8; 64].to_vec());
    assert_eq!(r.unwrap_err(), Error::AccountNotFound);
    assert_eq!(coord.current_key(&stranger).unwrap_err(), Error::AccountNotFound);
    assert_eq!(coord.sequence_number(&stranger).unwrap_err(), Error::AccountNotFound);
    assert_eq!(coord.rotation_event_count(&stranger).unwrap_err(), Error::AccountNotFound);
    assert_eq!(coord.increment_sequence_number(&stranger).unwrap_err(), Error::AccountNotFound);
}

#[test]
fn current_key_mismatch_is_reported() {
    let (mut coord, _sk, address) = fresh_account();
    let other = key_from_seed(3);
    let other_pk = pk_of(&other);
    let r = coord.rotate_authentication_key(&address, 0, 0, &other_pk, 0, &other_pk,
        &[0u8; 64].to_vec(), &[0u8; 64].to_vec());
    assert_eq!(r.unwrap_err(), Error::CurrentKeyMismatch);
}

#[test]
fn stale_sequence_number_is_reported() {
    let (mut coord, sk, address) = fresh_account();
    let pk = pk_of(&sk);
    let new_sk = key_from_seed(2);
    let new_pk = pk_of(&new_sk);
    let current_auth = coord.current_key(&address).unwrap();
    // the signers built and signed the challenge against sequence number 5,
    // but the account is still at 0
    let msg = msg_for(5, &address, &current_auth, &new_pk);
    let sig_current = sk.sign(&msg).to_bytes().to_vec();
    let sig_new = new_sk.sign(&msg).to_bytes().to_vec();
    let r = coord.rotate_authentication_key(&address, 5, 0, &pk, 0, &new_pk, &sig_current,
        &sig_new);
    assert_eq!(r.unwrap_err(), Error::SequenceNumberStale);
}

fn rotate_once(coord: &mut RotationCoordinator, sk: &SigningKey, address: &[u8],
    sequence_number: u64, new_sk: &SigningKey) -> (Vec<u8>, Vec<u8>, Vec<u8>) {
    let pk = pk_of(sk);
    let new_pk = pk_of(new_sk);
    let current_auth = coord.current_key(&address.to_vec()).unwrap();
    let msg = msg_for(sequence_number, address, &current_auth, &new_pk);
    let sig_current = sk.sign(&msg).to_bytes().to_vec();
    let sig_new = new_sk.sign(&msg).to_bytes().to_vec();
    let r = coord.rotate_authentication_key(&address.to_vec(), sequence_number, 0, &pk, 0,
        &new_pk, &sig_current, &sig_new);
    assert!(r.is_ok());
    (new_pk, sig_current, sig_new)
}

#[test]
fn replay_of_successful_rotation_fails() {
    let (mut coord, sk, address) = fresh_account();
    let new_sk = key_from_seed(2);
    let (new_pk, sig_current, sig_new) = rotate_once(&mut coord, &sk, &address, 0, &new_sk);
    coord.increment_sequence_number(&address).unwrap();
    // replay the exact same call: the stored key has been swapped, so the
    // offered current key no longer matches
    let pk = pk_of(&sk);
    let r = coord.rotate_authentication_key(&address, 0, 0, &pk, 0, &new_pk, &sig_current,
        &sig_new);
    assert_eq!(r.unwrap_err(), Error::CurrentKeyMismatch);
}

#[test]
fn signature_binding_flipped_fields_fail() {
    let new_sk = key_from_seed(2);
    let new_pk = pk_of(&new_sk);

    // signed over the wrong sequence number
    let (mut coord, sk, address) = fresh_account();
    let pk = pk_of(&sk);
    let current_auth = coord.current_key(&address).unwrap();
    let msg = msg_for(1, &address, &current_auth, &new_pk);
    let r = coord.rotate_authentication_key(&address, 0, 0, &pk, 0, &new_pk,
        &sk.sign(&msg).to_bytes().to_vec(), &new_sk.sign(&msg).to_bytes().to_vec());
    assert_eq!(r.unwrap_err(), Error::SignatureInvalid);

    // signed over a flipped originator byte
    let mut wrong_originator = address.clone();
    wrong_originator[0] ^= 1;
    let msg = msg_for(0, &wrong_originator, &current_auth, &new_pk);
    let r = coord.rotate_authentication_key(&address, 0, 0, &pk, 0, &new_pk,
        &sk.sign(&msg).to_bytes().to_vec(), &new_sk.sign(&msg).to_bytes().to_vec());
    assert_eq!(r.unwrap_err(), Error::SignatureInvalid);

    // signed over a flipped current-key byte
    let mut wrong_auth = current_auth.clone();
    wrong_auth[5] ^= 1;
    let msg = msg_for(0, &address, &wrong_auth, &new_pk);
    let r = coord.rotate_authentication_key(&address, 0, 0, &pk, 0, &new_pk,
        &sk.sign(&msg).to_bytes().to_vec(), &new_sk.sign(&msg).to_bytes().to_vec());
    assert_eq!(r.unwrap_err(), Error::SignatureInvalid);

    // signed over a different new public key than the one submitted
    let other_pk = pk_of(&key_from_seed(3));
    let msg = msg_for(0, &address, &current_auth, &other_pk);
    let r = coord.rotate_authentication_key(&address, 0, 0, &pk, 0, &new_pk,
        &sk.sign(&msg).to_bytes().to_vec(), &new_sk.sign(&msg).to_bytes().to_vec());
    assert_eq!(r.unwrap_err(), Error::SignatureInvalid);
}

#[test]
fn multi_key_to_single_key_rotation_succeeds() {
    let mut coord = RotationCoordinator::new();
    let members = vec![key_from_seed(4), key_from_seed(5), key_from_seed(6)];
    let refs: Vec<&SigningKey> = members.iter().collect();
    let blob = multi_pk_of(&refs, 2);
    let auth = derive_auth_key(1, &blob).unwrap();
    let address = auth.clone();
    assert!(coord.create_account(address.clone(), auth, 0));

    let new_sk = key_from_seed(7);
    let new_pk = pk_of(&new_sk);
    let current_auth = coord.current_key(&address).unwrap();
    let msg = msg_for(0, &address, &current_auth, &new_pk);
    let sig_current = multi_sig_of(&refs, &[1, 2], &msg);
    let sig_new = new_sk.sign(&msg).to_bytes().to_vec();
    let r = coord.rotate_authentication_key(&address, 0, 1, &blob, 0, &new_pk, &sig_current,
        &sig_new);
    let new_auth = r.unwrap();
    assert_eq!(new_auth, derive_auth_key(0, &new_pk).unwrap());
    assert_eq!(coord.current_key(&address).unwrap(), new_auth);
    assert_eq!(coord.lookup_owner(&new_auth), address);
}

#[test]
fn multi_signature_below_threshold_fails() {
    let mut coord = RotationCoordinator::new();
    let members = vec![key_from_seed(4), key_from_seed(5), key_from_seed(6)];
    let refs: Vec<&SigningKey> = members.iter().collect();
    let blob = multi_pk_of(&refs, 2);
    let auth = derive_auth_key(1, &blob).unwrap();
    let address = auth.clone();
    assert!(coord.create_account(address.clone(), auth, 0));

    let new_sk = key_from_seed(7);
    let new_pk = pk_of(&new_sk);
    let current_auth = coord.current_key(&address).unwrap();
    let msg = msg_for(0, &address, &current_auth, &new_pk);
    let sig_current = multi_sig_of(&refs, &[1], &msg);
    let sig_new = new_sk.sign(&msg).to_bytes().to_vec();
    let r = coord.rotate_authentication_key(&address, 0, 1, &blob, 0, &new_pk, &sig_current,
        &sig_new);
    assert_eq!(r.unwrap_err(), Error::SignatureInvalid);
}

#[test]
fn multi_signature_bitmap_mismatch_is_malformed() {
    let mut coord = RotationCoordinator::new();
    let members = vec![key_from_seed(4), key_from_seed(5)];
    let refs: Vec<&SigningKey> = members.iter().collect();
    let blob = multi_pk_of(&refs, 1);
    let auth = derive_auth_key(1, &blob).unwrap();
    let address = auth.clone();
    assert!(coord.create_account(address.clone(), auth, 0));

    let new_sk = key_from_seed(7);
    let new_pk = pk_of(&new_sk);
    let current_auth = coord.current_key(&address).unwrap();
    let msg = msg_for(0, &address, &current_auth, &new_pk);
    // one component signature, but a bitmap naming two signers
    let mut sig_current = members[0].sign(&msg).to_bytes().to_vec();
    sig_current.extend_from_slice(&[0xc0u8, 0, 0, 0]);
    let sig_new = new_sk.sign(&msg).to_bytes().to_vec();
    let r = coord.rotate_authentication_key(&address, 0, 1, &blob, 0, &new_pk, &sig_current,
        &sig_new);
    assert_eq!(r.unwrap_err(), Error::MalformedSignature);
}

#[test]
fn multi_signature_naming_missing_member_fails() {
    let mut coord = RotationCoordinator::new();
    let members = vec![key_from_seed(4), key_from_seed(5)];
    let refs: Vec<&SigningKey> = members.iter().collect();
    let blob = multi_pk_of(&refs, 1);
    let auth = derive_auth_key(1, &blob).unwrap();
    let address = auth.clone();
    assert!(coord.create_account(address.clone(), auth, 0));

    let new_sk = key_from_seed(7);
    let new_pk = pk_of(&new_sk);
    let current_auth = coord.current_key(&address).unwrap();
    let msg = msg_for(0, &address, &current_auth, &new_pk);
    // a well-formed blob whose bitmap names member 3 of a two-member key
    let mut sig_current = members[0].sign(&msg).to_bytes().to_vec();
    sig_current.extend_from_slice(&[0x10u8, 0, 0, 0]);
    let sig_new = new_sk.sign(&msg).to_bytes().to_vec();
    let r = coord.rotate_authentication_key(&address, 0, 1, &blob, 0, &new_pk, &sig_current,
        &sig_new);
    assert_eq!(r.unwrap_err(), Error::SignatureInvalid);
}

#[test]
fn lookup_of_never_rotated_address_is_itself() {
    let (coord, _sk, address) = fresh_account();
    assert_eq!(coord.lookup_owner(&address), address);
    let other = vec![3u8; 32];
    assert_eq!(coord.lookup_owner(&other), other);
}

#[test]
fn create_account_rejects_duplicates_and_bad_widths() {
    let (mut coord, _sk, address) = fresh_account();
    assert!(!coord.create_account(address.clone(), vec![0u8; 32], 0));
    assert!(!coord.create_account(vec![1u8; 31], vec![0u8; 32], 0));
    assert!(!coord.create_account(vec![1u8; 32], vec![0u8; 33], 0));
    assert!(coord.create_account(vec![1u8; 32], vec![0u8; 32], 0));
}

#[test]
fn rotation_scenario_from_fresh_account() {
    // a fresh account: its address is its self-derived initial key, at
    // sequence number 0
    let (mut coord, sk, address) = fresh_account();
    assert_eq!(coord.sequence_number(&address).unwrap(), 0);
    assert_eq!(coord.rotation_event_count(&address).unwrap(), 0);

    // first rotation, to a new single key, at sequence number 0
    let sk2 = key_from_seed(2);
    rotate_once(&mut coord, &sk, &address, 0, &sk2);
    let auth2 = coord.current_key(&address).unwrap();
    assert_eq!(coord.rotation_event_count(&address).unwrap(), 1);
    assert_eq!(coord.lookup_owner(&auth2), address);
    // the rotation itself advances nothing: the sequence number is owned by
    // the surrounding transaction layer
    assert_eq!(coord.sequence_number(&address).unwrap(), 0);

    // the transaction layer advances the sequence number
    coord.increment_sequence_number(&address).unwrap();
    assert_eq!(coord.sequence_number(&address).unwrap(), 1);

    // second rotation, to a multi key, at sequence number 1
    let members = vec![key_from_seed(4), key_from_seed(5)];
    let refs: Vec<&SigningKey> = members.iter().collect();
    let blob = multi_pk_of(&refs, 2);
    let current_auth = coord.current_key(&address).unwrap();
    let msg = msg_for(1, &address, &current_auth, &blob);
    let sig_current = sk2.sign(&msg).to_bytes().to_vec();
    let sig_new = multi_sig_of(&refs, &[0, 1], &msg);
    let r = coord.rotate_authentication_key(&address, 1, 0, &pk_of(&sk2), 1, &blob,
        &sig_current, &sig_new);
    let auth3 = r.unwrap();
    assert_eq!(coord.rotation_event_count(&address).unwrap(), 2);
    assert_eq!(coord.lookup_owner(&auth3), address);
    // the first entry is retained, not deleted
    assert_eq!(coord.lookup_owner(&auth2), address);
}

#[test]
fn challenge_encoding_layout_is_fixed() {
    let challenge = RotationProofChallenge {
        account_address: core_address(),
        module_name: module_name(),
        struct_name: struct_name(),
        sequence_number: 7,
        originator: vec![0xa1u8; 32],
        current_auth_key: vec![0xb2u8; 32],
        new_public_key: vec![0xc3u8, 0xc4u8],
    };
    let bytes = challenge.encode();
    let mut expected: Vec<u8> = Vec::new();
    expected.extend_from_slice(&core_address());
    expected.extend_from_slice(&7u64.to_le_bytes());
    expected.extend_from_slice(b"account");
    expected.extend_from_slice(&22u64.to_le_bytes());
    expected.extend_from_slice(b"RotationProofChallenge");
    expected.extend_from_slice(&7u64.to_le_bytes());
    expected.extend_from_slice(&[0xa1u8; 32]);
    expected.extend_from_slice(&[0xb2u8; 32]);
    expected.extend_from_slice(&2u64.to_le_bytes());
    expected.extend_from_slice(&[0xc3u8, 0xc4u8]);
    assert_eq!(bytes, expected);
}
