//! The values that the verifier takes and hands back: addresses, errors, events
//! and the pairing verification key.
use vstd::prelude::*;

verus! {

/// An account or contract, by its 32-byte key.
#[derive(Clone, Copy, Debug, PartialEq, Eq)]
pub struct Address {
    pub bytes: [u8; 32],
}

impl Address {
    /// The address whose key is `bytes`.
    pub fn from_bytes(bytes: [u8; 32]) -> (a: Address)
        ensures
            a.bytes == bytes,
    {
        Address { bytes }
    }
}

/// Why an operation of the verifier was refused.
#[derive(Debug, Clone, Copy, PartialEq, Eq, Structural)]
pub enum ZkGateError {
    /// Identity commitment already registered
    CommitmentExists,
    /// Identity commitment not found
    CommitmentNotFound,
    /// ZK proof verification failed
    ProofVerificationFailed,
    /// Nullifier already used (double-spend prevention)
    NullifierAlreadyUsed,
    /// Identity commitment does not match proof
    CommitmentMismatch,
    /// Credential level insufficient for access
    InsufficientCredentials,
    /// Proof has expired (epoch too old)
    ProofExpired,
    /// Unauthorized caller
    Unauthorized,
    /// Invalid public inputs length
    InvalidPublicInputs,
    /// BN254 pairing check failed
    PairingCheckFailed,
}

/// The number by which each error is reported to callers of the contract.
pub open spec fn error_code(e: ZkGateError) -> u32 {
    match e {
        ZkGateError::CommitmentExists => 1,
        ZkGateError::CommitmentNotFound => 2,
        ZkGateError::ProofVerificationFailed => 3,
        ZkGateError::NullifierAlreadyUsed => 4,
        ZkGateError::CommitmentMismatch => 5,
        ZkGateError::InsufficientCredentials => 6,
        ZkGateError::ProofExpired => 7,
        ZkGateError::Unauthorized => 8,
        ZkGateError::InvalidPublicInputs => 9,
        ZkGateError::PairingCheckFailed => 10,
    }
}

impl ZkGateError {
    /// The number by which this error is reported.
    pub fn code(&self) -> (r: u32)
        ensures
            r == error_code(*self),
    {
        match self {
            ZkGateError::CommitmentExists => 1,
            ZkGateError::CommitmentNotFound => 2,
            ZkGateError::ProofVerificationFailed => 3,
            ZkGateError::NullifierAlreadyUsed => 4,
            ZkGateError::CommitmentMismatch => 5,
            ZkGateError::InsufficientCredentials => 6,
            ZkGateError::ProofExpired => 7,
            ZkGateError::Unauthorized => 8,
            ZkGateError::InvalidPublicInputs => 9,
            ZkGateError::PairingCheckFailed => 10,
        }
    }
}

/// Published when a user registers an identity commitment.
#[derive(Clone, Copy, Debug, PartialEq, Eq)]
pub struct IdentityRegistered {
    pub user: Address,
    pub commitment: [u8; 32],
}

/// Published when a user's proof is accepted.
#[derive(Clone, Copy, Debug, PartialEq, Eq)]
pub struct ProofVerified {
    pub user: Address,
    pub nullifier: [u8; 32],
    pub credential_level: u32,
    pub epoch: u64,
}

/// Published when a gated action lets a user through.
#[derive(Clone, Copy, Debug, PartialEq, Eq)]
pub struct AccessGranted {
    pub user: Address,
    pub credential_level: u32,
}

/// Published when the admin revokes a user's credentials.
#[derive(Clone, Copy, Debug, PartialEq, Eq)]
pub struct AccessRevoked {
    pub user: Address,
}

/// The pairing verification key: G1 points of 64 bytes, G2 points of 128 bytes.
#[derive(Clone, Debug)]
pub struct VerificationKey {
    pub alpha_g: [u8; 64],
    pub beta_g1: [u8; 64],
    pub beta_g2: [u8; 128],
    pub gamma_g2: [u8; 128],
    pub delta_g2: [u8; 128],
    pub ic: Vec<[u8; 64]>,
}

/// A verification key as a mathematical value.
pub struct VerificationKeyView {
    pub alpha_g: [u8; 64],
    pub beta_g1: [u8; 64],
    pub beta_g2: [u8; 128],
    pub gamma_g2: [u8; 128],
    pub delta_g2: [u8; 128],
    pub ic: Seq<[u8; 64]>,
}

impl View for VerificationKey {
    type V = VerificationKeyView;

    open spec fn view(&self) -> VerificationKeyView {
        VerificationKeyView {
            alpha_g: self.alpha_g,
            beta_g1: self.beta_g1,
            beta_g2: self.beta_g2,
            gamma_g2: self.gamma_g2,
            delta_g2: self.delta_g2,
            ic: self.ic@,
        }
    }
}

/// An optional verification key as a mathematical value.
pub open spec fn key_view(vk: Option<VerificationKey>) -> Option<VerificationKeyView> {
    match vk {
        Some(k) => Some(k@),
        None => None,
    }
}

} // verus!
