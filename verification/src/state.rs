//! The verifier's stored state as a mathematical value, and what each operation
//! decides and does to it.
use vstd::prelude::*;

use crate::bytes::{be_u32_prefix, has_nonzero_byte};
use crate::types::{Address, VerificationKeyView, ZkGateError};

verus! {

/// The admin's address before the verifier is initialized: the all-zero key.
pub open spec fn unset_admin() -> Address {
    Address { bytes: vstd::array::spec_array_fill_for_copy_type::<u8, 32>(0u8) }
}

/// What the verifier holds: its configuration, the registered identity
/// commitments, the spent nullifiers, each user's credential level and proof
/// epoch, and the verification key.
#[verifier::ext_equal]
pub struct GateState {
    pub admin: Address,
    pub required_level: u32,
    pub max_epoch_age: u64,
    /// user key -> identity commitment
    pub commitments: Map<[u8; 32], [u8; 32]>,
    /// nullifier -> whether it has been spent
    pub nullifiers: Map<[u8; 32], bool>,
    /// user key -> credential level of the last accepted proof
    pub credential_levels: Map<[u8; 32], u32>,
    /// user key -> epoch of the last accepted proof
    pub proof_epochs: Map<[u8; 32], u64>,
    pub verification_key: Option<VerificationKeyView>,
}

/// The credential level that a proof's public signals claim: the big-endian
/// number in the first four bytes of the third signal.
pub open spec fn claimed_level(public_inputs: Seq<[u8; 32]>) -> u32 {
    be_u32_prefix(public_inputs[2]@) as u32
}

/// The check that stands for the pairing check: both G1 points of the proof
/// have a byte that is not zero.
pub open spec fn proof_points_accepted(proof_a: [u8; 64], proof_c: [u8; 64]) -> bool {
    has_nonzero_byte(proof_a@) && has_nonzero_byte(proof_c@)
}

impl GateState {
    /// A verifier that nothing has been stored in: no admin (the all-zero key),
    /// required level 1, proofs valid for 86400 seconds.
    pub open spec fn initial() -> GateState {
        GateState {
            admin: unset_admin(),
            required_level: 1,
            max_epoch_age: 86400,
            commitments: Map::empty(),
            nullifiers: Map::empty(),
            credential_levels: Map::empty(),
            proof_epochs: Map::empty(),
            verification_key: None,
        }
    }

    /// The configuration that `initialize` stores.
    pub open spec fn initialized(self, admin: Address, required_level: u32, max_epoch_age: u64) -> GateState {
        GateState { admin, required_level, max_epoch_age, ..self }
    }

    /// The commitment registered for `user`, if any.
    pub open spec fn commitment_of(self, user: Address) -> Option<[u8; 32]> {
        if self.commitments.contains_key(user.bytes) {
            Some(self.commitments[user.bytes])
        } else {
            None
        }
    }

    /// The user's credential level; 0 where none is recorded.
    pub open spec fn credential_level(self, user: Address) -> u32 {
        if self.credential_levels.contains_key(user.bytes) {
            self.credential_levels[user.bytes]
        } else {
            0
        }
    }

    /// Whether `nullifier` has been spent.
    pub open spec fn nullifier_used(self, nullifier: [u8; 32]) -> bool {
        self.nullifiers.contains_key(nullifier) && self.nullifiers[nullifier]
    }

    /// What an access check answers: the user's level where it reaches the
    /// required level, else `InsufficientCredentials`.
    pub open spec fn access(self, user: Address) -> Result<u32, ZkGateError> {
        if self.credential_level(user) < self.required_level {
            Err(ZkGateError::InsufficientCredentials)
        } else {
            Ok(self.credential_level(user))
        }
    }

    /// Why an admin operation by `caller` is refused, if it is.
    pub open spec fn admin_error(self, caller: Address) -> Option<ZkGateError> {
        if caller != self.admin {
            Some(ZkGateError::Unauthorized)
        } else {
            None
        }
    }

    /// Why registering `user` is refused, if it is.
    pub open spec fn register_error(self, user: Address) -> Option<ZkGateError> {
        if self.commitments.contains_key(user.bytes) {
            Some(ZkGateError::CommitmentExists)
        } else {
            None
        }
    }

    /// The state after `user` registers `commitment`.
    pub open spec fn with_commitment(self, user: Address, commitment: [u8; 32]) -> GateState {
        GateState { commitments: self.commitments.insert(user.bytes, commitment), ..self }
    }

    /// Whether a proof submission gets as far as the freshness check, where
    /// the proof's epoch and the maximum age are added.
    pub open spec fn reaches_freshness_check(self, user: Address, public_inputs: Seq<[u8; 32]>) -> bool {
        &&& public_inputs.len() == 4
        &&& self.commitments.contains_key(user.bytes)
        &&& self.commitments[user.bytes] == public_inputs[0]
        &&& !self.nullifier_used(public_inputs[1])
    }

    /// Why a proof submission is refused, if it is, checked in this order:
    /// the number of public signals, the user's registration, the
    /// commitment, the nullifier, the proof's age, the proof points.
    pub open spec fn verify_error(
        self,
        user: Address,
        proof_a: [u8; 64],
        proof_c: [u8; 64],
        public_inputs: Seq<[u8; 32]>,
        epoch: u64,
        ledger_time: u64,
    ) -> Option<ZkGateError> {
        if public_inputs.len() != 4 {
            Some(ZkGateError::InvalidPublicInputs)
        } else if !self.commitments.contains_key(user.bytes) {
            Some(ZkGateError::CommitmentNotFound)
        } else if self.commitments[user.bytes] != public_inputs[0] {
            Some(ZkGateError::CommitmentMismatch)
        } else if self.nullifier_used(public_inputs[1]) {
            Some(ZkGateError::NullifierAlreadyUsed)
        } else if epoch + self.max_epoch_age < ledger_time {
            Some(ZkGateError::ProofExpired)
        } else if !proof_points_accepted(proof_a, proof_c) {
            Some(ZkGateError::ProofVerificationFailed)
        } else {
            None
        }
    }

    /// The state after a proof is accepted: its nullifier is spent and the
    /// user's credential level and proof epoch are recorded.
    pub open spec fn with_proof(self, user: Address, nullifier: [u8; 32], level: u32, epoch: u64) -> GateState {
        GateState {
            nullifiers: self.nullifiers.insert(nullifier, true),
            credential_levels: self.credential_levels.insert(user.bytes, level),
            proof_epochs: self.proof_epochs.insert(user.bytes, epoch),
            ..self
        }
    }

    /// The state after the user's credential level and proof epoch are taken out.
    pub open spec fn without_credentials(self, user: Address) -> GateState {
        GateState {
            credential_levels: self.credential_levels.remove(user.bytes),
            proof_epochs: self.proof_epochs.remove(user.bytes),
            ..self
        }
    }

    /// The state after the admin stores a verification key.
    pub open spec fn with_verification_key(self, vk: VerificationKeyView) -> GateState {
        GateState { verification_key: Some(vk), ..self }
    }

    /// The state after the admin changes the required level.
    pub open spec fn with_required_level(self, level: u32) -> GateState {
        GateState { required_level: level, ..self }
    }
}

} // verus!
