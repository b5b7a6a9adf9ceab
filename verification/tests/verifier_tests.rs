use zk_kyc_verifier::contract::ZkKycVerifier;
use zk_kyc_verifier::keyed::ByteKeyMap;
use zk_kyc_verifier::types::{
    AccessGranted, AccessRevoked, Address, IdentityRegistered, ProofVerified, ZkGateError,
};

fn addr(tag: u8) -> Address {
    let mut bytes = [0u8; 32];
    bytes[0] = tag;
    bytes[31] = tag.wrapping_mul(7);
    Address::from_bytes(bytes)
}

fn level_bytes(level: u32) -> [u8; 32] {
    let mut b = [0u8; 32];
    b[..4].copy_from_slice(&level.to_be_bytes());
    b
}

fn signals(commitment: [u8; 32], nullifier: [u8; 32], level: u32, epoch: u64) -> Vec<[u8; 32]> {
    let mut e = [0u8; 32];
    e[24..].copy_from_slice(&epoch.to_be_bytes());
    vec![commitment, nullifier, level_bytes(level), e]
}

fn point(byte: u8) -> [u8; 64] {
    let mut p = [0u8; 64];
    p[63] = byte;
    p
}

/// A verifier set up with an admin, required level 1 and a day of proof age,
/// and one registered user.
fn registered_gate() -> (ZkKycVerifier, Address, Address, [u8; 32]) {
    let mut gate = ZkKycVerifier::new();
    let admin = addr(1);
    let user = addr(2);
    gate.initialize(admin, 1, 86400);
    let commitment = [1u8; 32];
    gate.register_identity(user, commitment).unwrap();
    (gate, admin, user, commitment)
}

#[test]
fn test_initialize() {
    let mut gate = ZkKycVerifier::new();
    let admin = addr(1);
    gate.initialize(admin, 1, 86400);
    let level = gate.get_credential_level(admin);
    assert_eq!(level, 0);
}

#[test]
fn test_register_identity() {
    let mut gate = ZkKycVerifier::new();
    let admin = addr(1);
    let user = addr(2);
    gate.initialize(admin, 1, 86400);
    let commitment = [1u8; 32];
    gate.register_identity(user, commitment).unwrap();
    let retrieved = gate.get_commitment(user);
    assert!(retrieved.is_some());
    assert_eq!(retrieved.unwrap(), commitment);
}

#[test]
fn test_duplicate_registration_fails() {
    let mut gate = ZkKycVerifier::new();
    let admin = addr(1);
    let user = addr(2);
    gate.initialize(admin, 1, 86400);
    let commitment = [1u8; 32];
    gate.register_identity(user, commitment).unwrap();
    let result = gate.register_identity(user, commitment);
    assert!(result.is_err());
}

#[test]
fn test_access_denied_without_proof() {
    let mut gate = ZkKycVerifier::new();
    let admin = addr(1);
    let user = addr(2);
    gate.initialize(admin, 1, 86400);
    let result = gate.check_access(user);
    assert!(result.is_err());
}

#[test]
fn register_hands_back_event_and_duplicate_names_error() {
    let mut gate = ZkKycVerifier::new();
    let user = addr(5);
    let c = [9u8; 32];
    assert_eq!(
        gate.register_identity(user, c),
        Ok(IdentityRegistered { user, commitment: c })
    );
    assert_eq!(
        gate.register_identity(user, [3u8; 32]),
        Err(ZkGateError::CommitmentExists)
    );
    assert_eq!(gate.get_commitment(user), Some(c));
    assert_eq!(gate.get_commitment(addr(6)), None);
}

#[test]
fn accepted_proof_records_level_and_spends_nullifier() {
    let (mut gate, _admin, user, c) = registered_gate();
    let n = [4u8; 32];
    let r = gate.verify_proof(user, point(1), [0u8; 128], point(2), signals(c, n, 3, 1000), 1000, 2000);
    assert_eq!(
        r,
        Ok(ProofVerified { user, nullifier: n, credential_level: 3, epoch: 1000 })
    );
    assert_eq!(gate.get_credential_level(user), 3);
    assert!(gate.is_nullifier_used(n));
    assert!(!gate.is_nullifier_used([5u8; 32]));
    assert_eq!(gate.check_access(user), Ok(3));
    assert_eq!(
        gate.gated_action(user),
        Ok(AccessGranted { user, credential_level: 3 })
    );
}

#[test]
fn nullifier_cannot_be_used_twice() {
    let (mut gate, _admin, user, c) = registered_gate();
    let other = addr(3);
    let oc = [8u8; 32];
    gate.register_identity(other, oc).unwrap();
    let n = [4u8; 32];
    gate.verify_proof(user, point(1), [0u8; 128], point(2), signals(c, n, 2, 10), 10, 20).unwrap();
    assert_eq!(
        gate.verify_proof(user, point(1), [0u8; 128], point(2), signals(c, n, 2, 10), 10, 20),
        Err(ZkGateError::NullifierAlreadyUsed)
    );
    assert_eq!(
        gate.verify_proof(other, point(1), [0u8; 128], point(2), signals(oc, n, 3, 10), 10, 20),
        Err(ZkGateError::NullifierAlreadyUsed)
    );
    assert_eq!(gate.get_credential_level(other), 0);
}

#[test]
fn each_refusal_of_a_proof() {
    let (mut gate, _admin, user, c) = registered_gate();
    let n = [4u8; 32];
    let mut three = signals(c, n, 1, 0);
    three.pop();
    assert_eq!(
        gate.verify_proof(user, point(1), [0u8; 128], point(1), three, 0, 0),
        Err(ZkGateError::InvalidPublicInputs)
    );
    assert_eq!(
        gate.verify_proof(addr(9), point(1), [0u8; 128], point(1), signals(c, n, 1, 0), 0, 0),
        Err(ZkGateError::CommitmentNotFound)
    );
    assert_eq!(
        gate.verify_proof(user, point(1), [0u8; 128], point(1), signals([2u8; 32], n, 1, 0), 0, 0),
        Err(ZkGateError::CommitmentMismatch)
    );
    assert_eq!(
        gate.verify_proof(user, point(1), [0u8; 128], point(1), signals(c, n, 1, 0), 0, 86401),
        Err(ZkGateError::ProofExpired)
    );
    assert_eq!(
        gate.verify_proof(user, [0u8; 64], [0u8; 128], point(1), signals(c, n, 1, 0), 0, 0),
        Err(ZkGateError::ProofVerificationFailed)
    );
    assert_eq!(
        gate.verify_proof(user, point(1), [0u8; 128], [0u8; 64], signals(c, n, 1, 0), 0, 0),
        Err(ZkGateError::ProofVerificationFailed)
    );
    // none of the refusals spent the nullifier or granted a level
    assert!(!gate.is_nullifier_used(n));
    assert_eq!(gate.get_credential_level(user), 0);
    // a proof exactly at its maximum age is still accepted
    assert!(gate
        .verify_proof(user, point(1), [0u8; 128], point(1), signals(c, n, 1, 0), 0, 86400)
        .is_ok());
    assert_eq!(
        gate.verify_proof(user, point(1), [0u8; 128], point(1), signals(c, n, 1, 0), 0, 86400),
        Err(ZkGateError::NullifierAlreadyUsed)
    );
}

#[test]
fn low_level_proof_is_recorded_but_refused_access() {
    let (mut gate, _admin, user, c) = registered_gate();
    gate.verify_proof(user, point(1), [0u8; 128], point(1), signals(c, [4u8; 32], 0, 5), 5, 5)
        .unwrap();
    assert_eq!(gate.get_credential_level(user), 0);
    assert_eq!(gate.check_access(user), Err(ZkGateError::InsufficientCredentials));
    assert_eq!(gate.gated_action(user), Err(ZkGateError::InsufficientCredentials));
}

#[test]
fn revoke_takes_away_access() {
    let (mut gate, admin, user, c) = registered_gate();
    gate.verify_proof(user, point(1), [0u8; 128], point(1), signals(c, [4u8; 32], 2, 5), 5, 5)
        .unwrap();
    assert_eq!(gate.revoke_access(user, user), Err(ZkGateError::Unauthorized));
    assert_eq!(gate.get_credential_level(user), 2);
    assert_eq!(gate.revoke_access(admin, user), Ok(AccessRevoked { user }));
    assert_eq!(gate.get_credential_level(user), 0);
    assert_eq!(gate.check_access(user), Err(ZkGateError::InsufficientCredentials));
    assert!(gate.is_nullifier_used([4u8; 32]));
    assert_eq!(gate.get_commitment(user), Some(c));
}

#[test]
fn admin_operations_refuse_others() {
    let (mut gate, admin, user, _c) = registered_gate();
    assert_eq!(gate.set_required_level(user, 0), Err(ZkGateError::Unauthorized));
    assert_eq!(gate.required_level(), 1);
    assert_eq!(
        gate.set_verification_key(user, point(1), point(2), [3u8; 128], [4u8; 128], [5u8; 128], vec![point(6)]),
        Err(ZkGateError::Unauthorized)
    );
    assert!(gate.verification_key().is_none());
    assert_eq!(
        gate.set_verification_key(admin, point(1), point(2), [3u8; 128], [4u8; 128], [5u8; 128], vec![point(6)]),
        Ok(())
    );
    let vk = gate.verification_key().clone().unwrap();
    assert_eq!(vk.alpha_g, point(1));
    assert_eq!(vk.delta_g2, [5u8; 128]);
    assert_eq!(vk.ic, vec![point(6)]);
    assert_eq!(gate.set_required_level(admin, 0), Ok(()));
    assert_eq!(gate.required_level(), 0);
    assert_eq!(gate.check_access(user), Ok(0));
}

#[test]
fn before_initialize_the_zero_key_is_admin_and_defaults_hold() {
    let gate = ZkKycVerifier::new();
    assert_eq!(gate.require_admin(Address::from_bytes([0u8; 32])), Ok(()));
    assert_eq!(gate.require_admin(addr(1)), Err(ZkGateError::Unauthorized));
    assert_eq!(gate.required_level(), 1);
    assert_eq!(gate.max_epoch_age(), 86400);
    assert_eq!(gate.check_access(addr(1)), Err(ZkGateError::InsufficientCredentials));
}

#[test]
fn initialize_replaces_configuration() {
    let (mut gate, admin, user, c) = registered_gate();
    let new_admin = addr(7);
    gate.initialize(new_admin, 4, 10);
    assert_eq!(gate.admin(), new_admin);
    assert_eq!(gate.require_admin(admin), Err(ZkGateError::Unauthorized));
    assert_eq!(gate.max_epoch_age(), 10);
    assert_eq!(gate.get_commitment(user), Some(c));
    assert_eq!(
        gate.verify_proof(user, point(1), [0u8; 128], point(1), signals(c, [4u8; 32], 5, 0), 0, 11),
        Err(ZkGateError::ProofExpired)
    );
}

#[test]
fn bytes_to_u32_reads_first_four_bytes_big_endian() {
    let mut b = [0xffu8; 32];
    b[0] = 0x01;
    b[1] = 0x02;
    b[2] = 0x03;
    b[3] = 0x04;
    assert_eq!(ZkKycVerifier::bytes_to_u32(b), 0x0102_0304);
    assert_eq!(ZkKycVerifier::bytes_to_u32([0xffu8; 32]), u32::MAX);
    assert_eq!(ZkKycVerifier::bytes_to_u32([0u8; 32]), 0);
}

#[test]
fn proof_point_check() {
    let gate = ZkKycVerifier::new();
    let none: Vec<[u8; 32]> = Vec::new();
    assert_eq!(gate.verify_bn254_proof(point(1), [0u8; 128], point(9), &none), Ok(true));
    assert_eq!(gate.verify_bn254_proof([0u8; 64], [1u8; 128], point(9), &none), Ok(false));
    assert_eq!(gate.verify_bn254_proof(point(1), [1u8; 128], [0u8; 64], &none), Ok(false));
}

#[test]
fn epoch_overflow_is_reported_only_where_reached() {
    let (mut gate, _admin, user, c) = registered_gate();
    gate.initialize(addr(1), 1, u64::MAX);
    let n = [4u8; 32];
    assert!(gate.proof_epoch_overflows(user, &signals(c, n, 1, 1), 1));
    assert!(!gate.proof_epoch_overflows(user, &signals(c, n, 1, 0), 0));
    assert!(!gate.proof_epoch_overflows(addr(9), &signals(c, n, 1, 1), 1));
    assert_eq!(
        gate.verify_proof(addr(9), point(1), [0u8; 128], point(1), signals(c, n, 1, 1), 1, 0),
        Err(ZkGateError::CommitmentNotFound)
    );
}

#[test]
fn error_codes() {
    assert_eq!(ZkGateError::CommitmentExists.code(), 1);
    assert_eq!(ZkGateError::CommitmentNotFound.code(), 2);
    assert_eq!(ZkGateError::ProofVerificationFailed.code(), 3);
    assert_eq!(ZkGateError::NullifierAlreadyUsed.code(), 4);
    assert_eq!(ZkGateError::CommitmentMismatch.code(), 5);
    assert_eq!(ZkGateError::InsufficientCredentials.code(), 6);
    assert_eq!(ZkGateError::ProofExpired.code(), 7);
    assert_eq!(ZkGateError::Unauthorized.code(), 8);
    assert_eq!(ZkGateError::InvalidPublicInputs.code(), 9);
    assert_eq!(ZkGateError::PairingCheckFailed.code(), 10);
}

#[test]
fn byte_key_map_operations() {
    let mut m: ByteKeyMap<u32> = ByteKeyMap::new();
    m.insert([1u8; 32], 10);
    m.insert([2u8; 32], 20);
    m.insert([1u8; 32], 11);
    assert_eq!(m.get(&[1u8; 32]), Some(11));
    assert_eq!(m.get(&[2u8; 32]), Some(20));
    assert!(!m.contains_key(&[3u8; 32]));
    let mut entries = m.to_vec();
    entries.sort();
    assert_eq!(entries, vec![([1u8; 32], 11), ([2u8; 32], 20)]);
    m.remove(&[1u8; 32]);
    assert_eq!(m.get(&[1u8; 32]), None);
    assert_eq!(m.to_vec(), vec![([2u8; 32], 20)]);
}

#[test]
fn state_round_trips_through_parts() {
    let (mut gate, admin, user, c) = registered_gate();
    gate.verify_proof(user, point(1), [0u8; 128], point(1), signals(c, [4u8; 32], 2, 5), 5, 5)
        .unwrap();
    let copy = ZkKycVerifier::from_parts(
        gate.admin(),
        gate.required_level(),
        gate.max_epoch_age(),
        rebuild(gate.commitments()),
        rebuild(gate.nullifiers()),
        rebuild(gate.credential_levels()),
        rebuild(gate.proof_epochs()),
        gate.verification_key().clone(),
    );
    assert_eq!(copy.admin(), admin);
    assert_eq!(copy.get_commitment(user), Some(c));
    assert_eq!(copy.get_credential_level(user), 2);
    assert!(copy.is_nullifier_used([4u8; 32]));
    assert_eq!(copy.proof_epochs().get(&user.bytes), Some(5));
}

fn rebuild<V: Copy>(m: &ByteKeyMap<V>) -> ByteKeyMap<V> {
    let mut out = ByteKeyMap::new();
    for (k, v) in m.to_vec() {
        out.insert(k, v);
    }
    out
}
