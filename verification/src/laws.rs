//! What holds of the verifier across its operations.
use vstd::prelude::*;

use crate::state::{claimed_level, proof_points_accepted, GateState};
use crate::types::{Address, VerificationKeyView, ZkGateError};

verus! {

/// Every nullifier spent in `s` is still spent in `t`.
pub open spec fn keeps_spent_nullifiers(s: GateState, t: GateState) -> bool {
    forall|n: [u8; 32]| #[trigger] s.nullifier_used(n) ==> t.nullifier_used(n)
}

/// Every commitment registered in `s` is registered, unchanged, in `t`.
pub open spec fn keeps_commitments(s: GateState, t: GateState) -> bool {
    forall|u: [u8; 32]| #[trigger] s.commitments.contains_key(u) ==> t.commitments.contains_key(u)
        && t.commitments[u] == s.commitments[u]
}

/// Credential levels and proof epochs are recorded for the same users, and
/// only for users with a registered identity commitment.
pub open spec fn credentials_consistent(s: GateState) -> bool {
    &&& s.credential_levels.dom() == s.proof_epochs.dom()
    &&& forall|u: [u8; 32]| #[trigger] s.credential_levels.contains_key(u) ==> s.commitments.contains_key(u)
}

/// A registered commitment is what a lookup gives back, and registering the
/// same user again is refused with `CommitmentExists`; registration is
/// refused exactly when the user already has a commitment.
pub proof fn law_register_then_lookup(s: GateState, user: Address, commitment: [u8; 32])
    ensures
        s.register_error(user) is Some <==> s.commitment_of(user) is Some,
        s.register_error(user) is None ==> s.with_commitment(user, commitment).commitment_of(user)
            == Some(commitment),
        s.register_error(user) is None ==> s.with_commitment(user, commitment).register_error(user)
            == Some(ZkGateError::CommitmentExists),
{
}

/// A user without a recorded credential level is refused access exactly when
/// the required level is above 0; a verifier with nothing stored refuses everyone.
pub proof fn law_no_proof_no_access(s: GateState, user: Address)
    ensures
        !s.credential_levels.contains_key(user.bytes) ==> (s.access(user) is Err <==> s.required_level
            > 0),
        GateState::initial().access(user) == Err::<u32, ZkGateError>(
            ZkGateError::InsufficientCredentials,
        ),
{
}

/// An accepted proof satisfied every check: four public signals, the user's
/// registered commitment as the first, an unspent nullifier as the second,
/// an epoch no older than the maximum age, and proof points that pass.
pub proof fn law_accepted_proof_passed_every_check(
    s: GateState,
    user: Address,
    proof_a: [u8; 64],
    proof_c: [u8; 64],
    public_inputs: Seq<[u8; 32]>,
    epoch: u64,
    ledger_time: u64,
)
    requires
        s.verify_error(user, proof_a, proof_c, public_inputs, epoch, ledger_time) is None,
    ensures
        public_inputs.len() == 4,
        s.commitment_of(user) == Some(public_inputs[0]),
        !s.nullifier_used(public_inputs[1]),
        epoch + s.max_epoch_age >= ledger_time,
        proof_points_accepted(proof_a, proof_c),
        exists|i: int| 0 <= i < 64 && proof_a@[i] != 0,
        exists|i: int| 0 <= i < 64 && proof_c@[i] != 0,
        !(s.nullifiers.contains_key(public_inputs[1]) && s.nullifiers[public_inputs[1]]),
{
}

/// After a proof is accepted, the user holds the level it claims, has access
/// exactly when that level reaches the required level, and the proof's
/// nullifier is spent.
pub proof fn law_accepted_proof_grants_level(
    s: GateState,
    user: Address,
    public_inputs: Seq<[u8; 32]>,
    epoch: u64,
)
    requires
        public_inputs.len() == 4,
    ensures
        ({
            let t = s.with_proof(user, public_inputs[1], claimed_level(public_inputs), epoch);
            &&& t.credential_level(user) == claimed_level(public_inputs)
            &&& t.nullifier_used(public_inputs[1])
            &&& t.access(user) == (if claimed_level(public_inputs) < s.required_level {
                Err::<u32, ZkGateError>(ZkGateError::InsufficientCredentials)
            } else {
                Ok(claimed_level(public_inputs))
            })
        }),
{
}

/// Once a proof is accepted, no proof with the same nullifier is accepted
/// again, whoever submits it; the same submission is refused with
/// `NullifierAlreadyUsed`.
pub proof fn law_nullifier_single_use(
    s: GateState,
    user: Address,
    proof_a: [u8; 64],
    proof_c: [u8; 64],
    public_inputs: Seq<[u8; 32]>,
    epoch: u64,
    ledger_time: u64,
    other: Address,
    other_a: [u8; 64],
    other_c: [u8; 64],
    other_inputs: Seq<[u8; 32]>,
    other_epoch: u64,
    other_time: u64,
)
    requires
        s.verify_error(user, proof_a, proof_c, public_inputs, epoch, ledger_time) is None,
        other_inputs.len() == 4,
        other_inputs[1] == public_inputs[1],
    ensures
        ({
            let t = s.with_proof(user, public_inputs[1], claimed_level(public_inputs), epoch);
            &&& t.verify_error(other, other_a, other_c, other_inputs, other_epoch, other_time) is Some
            &&& t.verify_error(user, proof_a, proof_c, public_inputs, epoch, ledger_time) == Some(
                ZkGateError::NullifierAlreadyUsed,
            )
        }),
{
}

/// A submission whose epoch plus the maximum age is before the ledger time
/// is refused.
pub proof fn law_expired_proof_refused(
    s: GateState,
    user: Address,
    proof_a: [u8; 64],
    proof_c: [u8; 64],
    public_inputs: Seq<[u8; 32]>,
    epoch: u64,
    ledger_time: u64,
)
    requires
        epoch + s.max_epoch_age < ledger_time,
    ensures
        s.verify_error(user, proof_a, proof_c, public_inputs, epoch, ledger_time) is Some,
        s.reaches_freshness_check(user, public_inputs) ==> s.verify_error(
            user,
            proof_a,
            proof_c,
            public_inputs,
            epoch,
            ledger_time,
        ) == Some(ZkGateError::ProofExpired),
{
}

/// Revoking takes away the user's level and leaves every other user's level,
/// every commitment and every spent nullifier as they were.
pub proof fn law_revoke_removes_access(s: GateState, user: Address, other: Address)
    requires
        other != user,
    ensures
        ({
            let t = s.without_credentials(user);
            &&& t.credential_level(user) == 0
            &&& (t.access(user) is Err <==> s.required_level > 0)
            &&& t.credential_level(other) == s.credential_level(other)
            &&& keeps_commitments(s, t)
            &&& keeps_spent_nullifiers(s, t)
        }),
{
    assert(other.bytes != user.bytes);
}

/// No operation takes back a spent nullifier or changes or removes a
/// registered commitment.
pub proof fn law_spent_and_registered_stay(
    s: GateState,
    admin: Address,
    required_level: u32,
    max_epoch_age: u64,
    user: Address,
    commitment: [u8; 32],
    nullifier: [u8; 32],
    level: u32,
    epoch: u64,
    vk: VerificationKeyView,
)
    ensures
        keeps_spent_nullifiers(s, s.initialized(admin, required_level, max_epoch_age)),
        keeps_commitments(s, s.initialized(admin, required_level, max_epoch_age)),
        keeps_spent_nullifiers(s, s.with_commitment(user, commitment)),
        s.register_error(user) is None ==> keeps_commitments(s, s.with_commitment(user, commitment)),
        keeps_spent_nullifiers(s, s.with_proof(user, nullifier, level, epoch)),
        keeps_commitments(s, s.with_proof(user, nullifier, level, epoch)),
        keeps_spent_nullifiers(s, s.without_credentials(user)),
        keeps_commitments(s, s.without_credentials(user)),
        keeps_spent_nullifiers(s, s.with_verification_key(vk)),
        keeps_commitments(s, s.with_verification_key(vk)),
        keeps_spent_nullifiers(s, s.with_required_level(level)),
        keeps_commitments(s, s.with_required_level(level)),
{
}

/// Credential levels and proof epochs are recorded and taken out together,
/// and only for registered users: this holds of a verifier with nothing stored
/// and every operation keeps it.
pub proof fn law_credentials_consistent(
    s: GateState,
    admin: Address,
    required_level: u32,
    max_epoch_age: u64,
    user: Address,
    commitment: [u8; 32],
    proof_a: [u8; 64],
    proof_c: [u8; 64],
    public_inputs: Seq<[u8; 32]>,
    epoch: u64,
    ledger_time: u64,
    level: u32,
    vk: VerificationKeyView,
)
    requires
        credentials_consistent(s),
    ensures
        credentials_consistent(GateState::initial()),
        credentials_consistent(s.initialized(admin, required_level, max_epoch_age)),
        credentials_consistent(s.with_commitment(user, commitment)),
        s.verify_error(user, proof_a, proof_c, public_inputs, epoch, ledger_time) is None
            ==> credentials_consistent(
            s.with_proof(user, public_inputs[1], claimed_level(public_inputs), epoch),
        ),
        credentials_consistent(s.without_credentials(user)),
        credentials_consistent(s.with_verification_key(vk)),
        credentials_consistent(s.with_required_level(level)),
{
    assert(GateState::initial().credential_levels.dom() =~= GateState::initial().proof_epochs.dom());
    let t = s.with_proof(user, public_inputs[1], claimed_level(public_inputs), epoch);
    assert(t.credential_levels.dom() =~= t.proof_epochs.dom());
    let r = s.without_credentials(user);
    assert(r.credential_levels.dom() =~= r.proof_epochs.dom());
}

/// A proof submission is accepted whenever it passes every check, whatever
/// the user's recorded level or epoch: four public signals, the user's
/// registered commitment as the first, an unspent nullifier as the second,
/// an epoch no older than the maximum age, and a byte that is not zero in
/// each G1 point.
pub proof fn law_passing_proof_is_accepted(
    s: GateState,
    user: Address,
    proof_a: [u8; 64],
    proof_c: [u8; 64],
    public_inputs: Seq<[u8; 32]>,
    epoch: u64,
    ledger_time: u64,
    ia: int,
    ic: int,
)
    requires
        public_inputs.len() == 4,
        s.commitments.contains_key(user.bytes),
        s.commitments[user.bytes] == public_inputs[0],
        !(s.nullifiers.contains_key(public_inputs[1]) && s.nullifiers[public_inputs[1]]),
        epoch + s.max_epoch_age >= ledger_time,
        0 <= ia < 64,
        proof_a@[ia] != 0,
        0 <= ic < 64,
        proof_c@[ic] != 0,
    ensures
        s.verify_error(user, proof_a, proof_c, public_inputs, epoch, ledger_time) is None,
{
    assert(proof_a@.len() == 64);
    assert(proof_c@.len() == 64);
}

/// An accepted proof spends its nullifier and records, for its user only,
/// the level in the first four bytes (big-endian) of the third signal and
/// the submitted epoch; nothing else changes.
pub proof fn law_accepted_proof_effect(s: GateState, user: Address, public_inputs: Seq<[u8; 32]>, epoch: u64)
    requires
        public_inputs.len() == 4,
    ensures
        ({
            let t = s.with_proof(user, public_inputs[1], claimed_level(public_inputs), epoch);
            let b = public_inputs[2]@;
            &&& t.nullifiers == s.nullifiers.insert(public_inputs[1], true)
            &&& t.credential_levels.dom() == s.credential_levels.dom().insert(user.bytes)
            &&& t.credential_levels[user.bytes] as int == b[0] * 16777216int + b[1] * 65536int
                + b[2] * 256int + b[3]
            &&& forall|u: [u8; 32]| u != user.bytes ==> #[trigger] t.credential_levels.contains_key(u)
                == s.credential_levels.contains_key(u) && t.credential_levels[u] == s.credential_levels[u]
            &&& t.proof_epochs == s.proof_epochs.insert(user.bytes, epoch)
            &&& t.admin == s.admin
            &&& t.required_level == s.required_level
            &&& t.max_epoch_age == s.max_epoch_age
            &&& t.commitments == s.commitments
            &&& t.verification_key == s.verification_key
        }),
{
    let b = public_inputs[2]@;
    assert(0 <= b[0] * 16777216int + b[1] * 65536int + b[2] * 256int + b[3] <= 0xffff_ffff) by (nonlinear_arith)
        requires
            0 <= b[0] < 256,
            0 <= b[1] < 256,
            0 <= b[2] < 256,
            0 <= b[3] < 256,
    ;
    let t = s.with_proof(user, public_inputs[1], claimed_level(public_inputs), epoch);
    assert(t.credential_levels.dom() =~= s.credential_levels.dom().insert(user.bytes));
}

/// Registering records the user's commitment and changes nothing else: the
/// other users' commitments, the nullifiers, every credential level and
/// proof epoch, the configuration and the verification key stay as they were.
pub proof fn law_register_effect(s: GateState, user: Address, commitment: [u8; 32])
    ensures
        ({
            let t = s.with_commitment(user, commitment);
            &&& t.commitments == s.commitments.insert(user.bytes, commitment)
            &&& t.nullifiers == s.nullifiers
            &&& t.credential_levels == s.credential_levels
            &&& t.proof_epochs == s.proof_epochs
            &&& t.admin == s.admin
            &&& t.required_level == s.required_level
            &&& t.max_epoch_age == s.max_epoch_age
            &&& t.verification_key == s.verification_key
        }),
{
}

/// `initialize` stores the admin, required level and maximum age it is given
/// and changes nothing else.
pub proof fn law_initialize_effect(s: GateState, admin: Address, required_level: u32, max_epoch_age: u64)
    ensures
        ({
            let t = s.initialized(admin, required_level, max_epoch_age);
            &&& t.admin == admin
            &&& t.required_level == required_level
            &&& t.max_epoch_age == max_epoch_age
            &&& t.commitments == s.commitments
            &&& t.nullifiers == s.nullifiers
            &&& t.credential_levels == s.credential_levels
            &&& t.proof_epochs == s.proof_epochs
            &&& t.verification_key == s.verification_key
        }),
{
}

/// After the admin sets the required level it is the given level, raised or
/// lowered, and nothing else changes.
pub proof fn law_set_required_level_effect(s: GateState, level: u32)
    ensures
        ({
            let t = s.with_required_level(level);
            &&& t.required_level == level
            &&& t.admin == s.admin
            &&& t.max_epoch_age == s.max_epoch_age
            &&& t.commitments == s.commitments
            &&& t.nullifiers == s.nullifiers
            &&& t.credential_levels == s.credential_levels
            &&& t.proof_epochs == s.proof_epochs
            &&& t.verification_key == s.verification_key
        }),
{
}

/// Revoking takes out exactly the revoked user's level and epoch: the
/// configuration, the verification key, the commitments, the nullifiers and
/// every other user's level and epoch stay as they were.
pub proof fn law_revoke_effect(s: GateState, user: Address)
    ensures
        ({
            let t = s.without_credentials(user);
            &&& t.credential_levels == s.credential_levels.remove(user.bytes)
            &&& t.proof_epochs == s.proof_epochs.remove(user.bytes)
            &&& t.admin == s.admin
            &&& t.required_level == s.required_level
            &&& t.max_epoch_age == s.max_epoch_age
            &&& t.commitments == s.commitments
            &&& t.nullifiers == s.nullifiers
            &&& t.verification_key == s.verification_key
        }),
{
}

/// Storing a verification key keeps the given key and changes nothing else.
pub proof fn law_set_verification_key_effect(s: GateState, vk: VerificationKeyView)
    ensures
        ({
            let t = s.with_verification_key(vk);
            &&& t.verification_key == Some(vk)
            &&& t.admin == s.admin
            &&& t.required_level == s.required_level
            &&& t.max_epoch_age == s.max_epoch_age
            &&& t.commitments == s.commitments
            &&& t.nullifiers == s.nullifiers
            &&& t.credential_levels == s.credential_levels
            &&& t.proof_epochs == s.proof_epochs
        }),
{
}

/// Each refusal of a proof submission, by the first check it fails: the
/// number of signals, the user's registration, the commitment, the
/// nullifier, the age, the proof points.
pub proof fn law_proof_refusals(
    s: GateState,
    user: Address,
    proof_a: [u8; 64],
    proof_c: [u8; 64],
    public_inputs: Seq<[u8; 32]>,
    epoch: u64,
    ledger_time: u64,
)
    ensures
        ({
            let e = s.verify_error(user, proof_a, proof_c, public_inputs, epoch, ledger_time);
            let n = public_inputs[1];
            &&& public_inputs.len() != 4 ==> e == Some(ZkGateError::InvalidPublicInputs)
            &&& public_inputs.len() == 4 && !s.commitments.contains_key(user.bytes) ==> e == Some(
                ZkGateError::CommitmentNotFound,
            )
            &&& public_inputs.len() == 4 && s.commitments.contains_key(user.bytes)
                && s.commitments[user.bytes] != public_inputs[0] ==> e == Some(
                ZkGateError::CommitmentMismatch,
            )
            &&& public_inputs.len() == 4 && s.commitments.contains_key(user.bytes)
                && s.commitments[user.bytes] == public_inputs[0] && s.nullifiers.contains_key(n)
                && s.nullifiers[n] ==> e == Some(ZkGateError::NullifierAlreadyUsed)
            &&& s.reaches_freshness_check(user, public_inputs) && epoch + s.max_epoch_age
                < ledger_time ==> e == Some(ZkGateError::ProofExpired)
            &&& s.reaches_freshness_check(user, public_inputs) && epoch + s.max_epoch_age
                >= ledger_time && (forall|i: int| 0 <= i < 64 ==> proof_a@[i] == 0) ==> e == Some(
                ZkGateError::ProofVerificationFailed,
            )
            &&& s.reaches_freshness_check(user, public_inputs) && epoch + s.max_epoch_age
                >= ledger_time && (forall|i: int| 0 <= i < 64 ==> proof_c@[i] == 0) ==> e == Some(
                ZkGateError::ProofVerificationFailed,
            )
            &&& s.reaches_freshness_check(user, public_inputs) <==> (public_inputs.len() == 4
                && s.commitments.contains_key(user.bytes) && s.commitments[user.bytes]
                == public_inputs[0] && !(s.nullifiers.contains_key(n) && s.nullifiers[n]))
        }),
{
    assert(proof_a@.len() == 64);
    assert(proof_c@.len() == 64);
}

/// What the queries answer, in terms of the stored maps: a user's level is
/// the recorded one or 0; access is granted exactly when that level reaches
/// the required level, and answers the level; a nullifier is spent when it
/// is stored as spent; a commitment lookup answers the stored commitment;
/// registration is refused exactly for a registered user and admin
/// operations exactly for anyone but the admin.
pub proof fn law_queries(s: GateState, user: Address, nullifier: [u8; 32], caller: Address)
    ensures
        s.credential_levels.contains_key(user.bytes) ==> s.credential_level(user)
            == s.credential_levels[user.bytes],
        !s.credential_levels.contains_key(user.bytes) ==> s.credential_level(user) == 0,
        s.credential_level(user) >= s.required_level ==> s.access(user) == Ok::<u32, ZkGateError>(
            s.credential_level(user),
        ),
        s.credential_level(user) < s.required_level ==> s.access(user) == Err::<u32, ZkGateError>(
            ZkGateError::InsufficientCredentials,
        ),
        s.nullifier_used(nullifier) <==> (s.nullifiers.contains_key(nullifier)
            && s.nullifiers[nullifier]),
        s.commitments.contains_key(user.bytes) ==> s.commitment_of(user) == Some(
            s.commitments[user.bytes],
        ),
        !s.commitments.contains_key(user.bytes) ==> s.commitment_of(user) is None,
        s.commitments.contains_key(user.bytes) ==> s.register_error(user) == Some(
            ZkGateError::CommitmentExists,
        ),
        !s.commitments.contains_key(user.bytes) ==> s.register_error(user) is None,
        caller == s.admin ==> s.admin_error(caller) is None,
        caller != s.admin ==> s.admin_error(caller) == Some(ZkGateError::Unauthorized),
{
}

/// A verifier with nothing stored has the all-zero key as admin, required
/// level 1, a maximum proof age of 86400 seconds, no commitments, nullifiers,
/// levels, epochs or verification key.
pub proof fn law_initial_state()
    ensures
        forall|i: int| 0 <= i < 32 ==> GateState::initial().admin.bytes@[i] == 0,
        GateState::initial().required_level == 1,
        GateState::initial().max_epoch_age == 86400,
        GateState::initial().commitments == Map::<[u8; 32], [u8; 32]>::empty(),
        GateState::initial().nullifiers == Map::<[u8; 32], bool>::empty(),
        GateState::initial().credential_levels == Map::<[u8; 32], u32>::empty(),
        GateState::initial().proof_epochs == Map::<[u8; 32], u64>::empty(),
        GateState::initial().verification_key is None,
{
}

} // verus!
