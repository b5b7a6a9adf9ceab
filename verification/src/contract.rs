//! The verifier's operations on its stored state.
use vstd::prelude::*;

use crate::bytes::{be_u32_prefix, bytes32_eq};
use crate::keyed::ByteKeyMap;
use crate::state::{claimed_level, proof_points_accepted, GateState};
use crate::types::{
    key_view, AccessGranted, AccessRevoked, Address, IdentityRegistered, ProofVerified,
    VerificationKey, ZkGateError,
};

verus! {

/// The identity gate and what it has stored.
///
/// The host that runs the verifier checks each caller's authorization, supplies
/// the ledger time, keeps the state between calls and publishes the events
/// that the operations hand back.
pub struct ZkKycVerifier {
    admin: Address,
    required_level: u32,
    max_epoch_age: u64,
    commitments: ByteKeyMap<[u8; 32]>,
    nullifiers: ByteKeyMap<bool>,
    credential_levels: ByteKeyMap<u32>,
    proof_epochs: ByteKeyMap<u64>,
    verification_key: Option<VerificationKey>,
}

impl View for ZkKycVerifier {
    type V = GateState;

    closed spec fn view(&self) -> GateState {
        GateState {
            admin: self.admin,
            required_level: self.required_level,
            max_epoch_age: self.max_epoch_age,
            commitments: self.commitments@,
            nullifiers: self.nullifiers@,
            credential_levels: self.credential_levels@,
            proof_epochs: self.proof_epochs@,
            verification_key: key_view(self.verification_key),
        }
    }
}

impl ZkKycVerifier {
    /// A verifier with nothing stored.
    pub fn new() -> (g: ZkKycVerifier)
        ensures
            g@ == GateState::initial(),
    {
        ZkKycVerifier {
            admin: Address { bytes: [0u8; 32] },
            required_level: 1,
            max_epoch_age: 86400,
            commitments: ByteKeyMap::new(),
            nullifiers: ByteKeyMap::new(),
            credential_levels: ByteKeyMap::new(),
            proof_epochs: ByteKeyMap::new(),
            verification_key: None,
        }
    }

    /// Stores the admin, the required credential level and the maximum age
    /// of a proof.
    pub fn initialize(&mut self, admin: Address, required_level: u32, max_epoch_age: u64)
        ensures
            final(self)@ == old(self)@.initialized(admin, required_level, max_epoch_age),
    {
        self.admin = admin;
        self.required_level = required_level;
        self.max_epoch_age = max_epoch_age;
    }

    /// Registers `commitment` as `user`'s identity commitment. The user must
    /// have authorized the call.
    pub fn register_identity(&mut self, user: Address, commitment: [u8; 32]) -> (r: Result<
        IdentityRegistered,
        ZkGateError,
    >)
        ensures
            match r {
                Ok(ev) => {
                    &&& old(self)@.register_error(user) is None
                    &&& ev.user == user
                    &&& ev.commitment == commitment
                    &&& final(self)@ == old(self)@.with_commitment(user, commitment)
                },
                Err(e) => {
                    &&& old(self)@.register_error(user) == Some(e)
                    &&& final(self)@ == old(self)@
                },
            },
    {
        if self.commitments.contains_key(&user.bytes) {
            return Err(ZkGateError::CommitmentExists);
        }
        self.commitments.insert(user.bytes, commitment);
        Ok(IdentityRegistered { user, commitment })
    }

    /// Checks a proof of `user`'s credentials and records the credential
    /// level it proves. The public signals are, in order, the identity
    /// commitment, the nullifier, the credential level and the proof epoch.
    /// The user must have authorized the call; `ledger_time` is the current
    /// ledger timestamp.
    pub fn verify_proof(
        &mut self,
        user: Address,
        proof_a: [u8; 64],
        proof_b: [u8; 128],
        proof_c: [u8; 64],
        public_inputs: Vec<[u8; 32]>,
        epoch: u64,
        ledger_time: u64,
    ) -> (r: Result<ProofVerified, ZkGateError>)
        requires
            old(self)@.reaches_freshness_check(user, public_inputs@) ==> epoch
                + old(self)@.max_epoch_age <= u64::MAX,
        ensures
            match r {
                Ok(ev) => {
                    &&& old(self)@.verify_error(
                        user,
                        proof_a,
                        proof_c,
                        public_inputs@,
                        epoch,
                        ledger_time,
                    ) is None
                    &&& ev.user == user
                    &&& ev.nullifier == public_inputs@[1]
                    &&& ev.credential_level == claimed_level(public_inputs@)
                    &&& ev.epoch == epoch
                    &&& final(self)@ == old(self)@.with_proof(
                        user,
                        public_inputs@[1],
                        claimed_level(public_inputs@),
                        epoch,
                    )
                },
                Err(e) => {
                    &&& old(self)@.verify_error(
                        user,
                        proof_a,
                        proof_c,
                        public_inputs@,
                        epoch,
                        ledger_time,
                    ) == Some(e)
                    &&& final(self)@ == old(self)@
                },
            },
    {
        if public_inputs.len() != 4 {
            return Err(ZkGateError::InvalidPublicInputs);
        }
        let identity_commitment = public_inputs[0];
        let nullifier = public_inputs[1];
        let credential_level_bytes = public_inputs[2];
        let credential_level = Self::bytes_to_u32(credential_level_bytes);

        let registered = match self.commitments.get(&user.bytes) {
            Some(c) => c,
            None => return Err(ZkGateError::CommitmentNotFound),
        };
        if !bytes32_eq(&registered, &identity_commitment) {
            return Err(ZkGateError::CommitmentMismatch);
        }

        if self.nullifiers.get(&nullifier).unwrap_or(false) {
            return Err(ZkGateError::NullifierAlreadyUsed);
        }

        let max_age = self.max_epoch_age;
        if epoch + max_age < ledger_time {
            return Err(ZkGateError::ProofExpired);
        }

        let verification_ok = self.verify_bn254_proof(
            proof_a,
            proof_b,
            proof_c,
            &public_inputs,
        )?;
        if !verification_ok {
            return Err(ZkGateError::ProofVerificationFailed);
        }

        self.nullifiers.insert(nullifier, true);
        self.credential_levels.insert(user.bytes, credential_level);
        self.proof_epochs.insert(user.bytes, epoch);

        Ok(ProofVerified { user, nullifier, credential_level, epoch })
    }

    /// The check that a proof submission passes before it is accepted:
    /// both G1 points of the proof have a byte that is not zero. The
    /// verification key and the public signals take no part in it.
    pub fn verify_bn254_proof(
        &self,
        proof_a: [u8; 64],
        proof_b: [u8; 128],
        proof_c: [u8; 64],
        public_inputs: &Vec<[u8; 32]>,
    ) -> (r: Result<bool, ZkGateError>)
        ensures
            r == Ok::<bool, ZkGateError>(proof_points_accepted(proof_a, proof_c)),
    {
        let mut a_nonzero = false;
        let mut c_nonzero = false;
        for i in 0..64usize
            invariant
                a_nonzero == (exists|j: int| 0 <= j < i && proof_a@[j] != 0),
                c_nonzero == (exists|j: int| 0 <= j < i && proof_c@[j] != 0),
        {
            if proof_a[i] != 0 {
                a_nonzero = true;
            }
            if proof_c[i] != 0 {
                c_nonzero = true;
            }
        }
        Ok(a_nonzero && c_nonzero)
    }

    /// Stores the verification key. Only the admin may do this.
    pub fn set_verification_key(
        &mut self,
        admin: Address,
        alpha_g: [u8; 64],
        beta_g1: [u8; 64],
        beta_g2: [u8; 128],
        gamma_g2: [u8; 128],
        delta_g2: [u8; 128],
        ic: Vec<[u8; 64]>,
    ) -> (r: Result<(), ZkGateError>)
        ensures
            match r {
                Ok(()) => {
                    &&& old(self)@.admin_error(admin) is None
                    &&& final(self)@ == old(self)@.with_verification_key(
                        (VerificationKey { alpha_g, beta_g1, beta_g2, gamma_g2, delta_g2, ic })@,
                    )
                },
                Err(e) => {
                    &&& old(self)@.admin_error(admin) == Some(e)
                    &&& final(self)@ == old(self)@
                },
            },
    {
        self.require_admin(admin)?;
        self.verification_key = Some(
            VerificationKey { alpha_g, beta_g1, beta_g2, gamma_g2, delta_g2, ic },
        );
        Ok(())
    }

    /// The user's credential level where it reaches the required level.
    pub fn check_access(&self, user: Address) -> (r: Result<u32, ZkGateError>)
        ensures
            r == self@.access(user),
    {
        let level = self.credential_levels.get(&user.bytes).unwrap_or(0);
        let required = self.required_level;
        if level < required {
            return Err(ZkGateError::InsufficientCredentials);
        }
        Ok(level)
    }

    /// An action open only to users whose credentials suffice.
    pub fn gated_action(&self, user: Address) -> (r: Result<AccessGranted, ZkGateError>)
        ensures
            match r {
                Ok(ev) => ev.user == user && self@.access(user) == Ok::<u32, ZkGateError>(
                    ev.credential_level,
                ),
                Err(e) => self@.access(user) == Err::<u32, ZkGateError>(e),
            },
    {
        let level = self.check_access(user)?;
        Ok(AccessGranted { user, credential_level: level })
    }

    /// Takes out the user's credential level and proof epoch. Only the admin
    /// may do this.
    pub fn revoke_access(&mut self, admin: Address, user: Address) -> (r: Result<
        AccessRevoked,
        ZkGateError,
    >)
        ensures
            match r {
                Ok(ev) => {
                    &&& old(self)@.admin_error(admin) is None
                    &&& ev.user == user
                    &&& final(self)@ == old(self)@.without_credentials(user)
                },
                Err(e) => {
                    &&& old(self)@.admin_error(admin) == Some(e)
                    &&& final(self)@ == old(self)@
                },
            },
    {
        self.require_admin(admin)?;
        self.credential_levels.remove(&user.bytes);
        self.proof_epochs.remove(&user.bytes);
        Ok(AccessRevoked { user })
    }

    /// The user's credential level; 0 where none is recorded.
    pub fn get_credential_level(&self, user: Address) -> (r: u32)
        ensures
            r == self@.credential_level(user),
    {
        self.credential_levels.get(&user.bytes).unwrap_or(0)
    }

    /// Whether `nullifier` has been spent.
    pub fn is_nullifier_used(&self, nullifier: [u8; 32]) -> (r: bool)
        ensures
            r == self@.nullifier_used(nullifier),
    {
        self.nullifiers.get(&nullifier).unwrap_or(false)
    }

    /// The identity commitment registered for `user`, if any.
    pub fn get_commitment(&self, user: Address) -> (r: Option<[u8; 32]>)
        ensures
            r == self@.commitment_of(user),
    {
        self.commitments.get(&user.bytes)
    }

    /// Changes the required credential level. Only the admin may do this.
    pub fn set_required_level(&mut self, admin: Address, level: u32) -> (r: Result<(), ZkGateError>)
        ensures
            match r {
                Ok(()) => {
                    &&& old(self)@.admin_error(admin) is None
                    &&& final(self)@ == old(self)@.with_required_level(level)
                },
                Err(e) => {
                    &&& old(self)@.admin_error(admin) == Some(e)
                    &&& final(self)@ == old(self)@
                },
            },
    {
        self.require_admin(admin)?;
        self.required_level = level;
        Ok(())
    }

    /// `Unauthorized` unless `admin` is the stored admin.
    pub fn require_admin(&self, admin: Address) -> (r: Result<(), ZkGateError>)
        ensures
            match r {
                Ok(()) => self@.admin_error(admin) is None,
                Err(e) => self@.admin_error(admin) == Some(e),
            },
    {
        let stored = self.admin;
        if !bytes32_eq(&admin.bytes, &stored.bytes) {
            return Err(ZkGateError::Unauthorized);
        }
        Ok(())
    }

    /// The big-endian number in the first four bytes of `bytes`.
    pub fn bytes_to_u32(bytes: [u8; 32]) -> (r: u32)
        ensures
            r == be_u32_prefix(bytes@),
    {
        let x0 = bytes[0];
        let x1 = bytes[1];
        let x2 = bytes[2];
        let x3 = bytes[3];
        let b0 = (x0 as u32) << 24;
        let b1 = (x1 as u32) << 16;
        let b2 = (x2 as u32) << 8;
        let b3 = x3 as u32;
        assert(((x0 as u32) << 24) | ((x1 as u32) << 16) | ((x2 as u32) << 8) | (x3 as u32)
            == x0 * 16777216 + x1 * 65536 + x2 * 256 + x3) by (bit_vector);
        b0 | b1 | b2 | b3
    }

    /// Whether `verify_proof` gets as far as adding the proof's epoch to the
    /// maximum age and the sum does not fit in 64 bits.
    pub fn proof_epoch_overflows(&self, user: Address, public_inputs: &Vec<[u8; 32]>, epoch: u64) -> (r: bool)
        ensures
            r == (self@.reaches_freshness_check(user, public_inputs@) && epoch + self@.max_epoch_age
                > u64::MAX),
    {
        if public_inputs.len() != 4 {
            return false;
        }
        let registered = match self.commitments.get(&user.bytes) {
            Some(c) => c,
            None => return false,
        };
        if !bytes32_eq(&registered, &public_inputs[0]) {
            return false;
        }
        if self.nullifiers.get(&public_inputs[1]).unwrap_or(false) {
            return false;
        }
        epoch.checked_add(self.max_epoch_age).is_none()
    }

    /// A verifier holding the given configuration, maps and verification key.
    pub fn from_parts(
        admin: Address,
        required_level: u32,
        max_epoch_age: u64,
        commitments: ByteKeyMap<[u8; 32]>,
        nullifiers: ByteKeyMap<bool>,
        credential_levels: ByteKeyMap<u32>,
        proof_epochs: ByteKeyMap<u64>,
        verification_key: Option<VerificationKey>,
    ) -> (g: ZkKycVerifier)
        ensures
            g@ == (GateState {
                admin,
                required_level,
                max_epoch_age,
                commitments: commitments@,
                nullifiers: nullifiers@,
                credential_levels: credential_levels@,
                proof_epochs: proof_epochs@,
                verification_key: key_view(verification_key),
            }),
    {
        ZkKycVerifier {
            admin,
            required_level,
            max_epoch_age,
            commitments,
            nullifiers,
            credential_levels,
            proof_epochs,
            verification_key,
        }
    }

    /// The admin.
    pub fn admin(&self) -> (r: Address)
        ensures
            r == self@.admin,
    {
        self.admin
    }

    /// The credential level that access requires.
    pub fn required_level(&self) -> (r: u32)
        ensures
            r == self@.required_level,
    {
        self.required_level
    }

    /// How many seconds after its epoch a proof is still accepted.
    pub fn max_epoch_age(&self) -> (r: u64)
        ensures
            r == self@.max_epoch_age,
    {
        self.max_epoch_age
    }

    /// The registered identity commitments, by user key.
    pub fn commitments(&self) -> (r: &ByteKeyMap<[u8; 32]>)
        ensures
            r@ == self@.commitments,
    {
        &self.commitments
    }

    /// The nullifiers, each with whether it has been spent.
    pub fn nullifiers(&self) -> (r: &ByteKeyMap<bool>)
        ensures
            r@ == self@.nullifiers,
    {
        &self.nullifiers
    }

    /// The recorded credential levels, by user key.
    pub fn credential_levels(&self) -> (r: &ByteKeyMap<u32>)
        ensures
            r@ == self@.credential_levels,
    {
        &self.credential_levels
    }

    /// The recorded proof epochs, by user key.
    pub fn proof_epochs(&self) -> (r: &ByteKeyMap<u64>)
        ensures
            r@ == self@.proof_epochs,
    {
        &self.proof_epochs
    }

    /// The stored verification key, if any.
    pub fn verification_key(&self) -> (r: &Option<VerificationKey>)
        ensures
            key_view(*r) == self@.verification_key,
    {
        &self.verification_key
    }
}

} // verus!
