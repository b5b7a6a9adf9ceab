# zk_kyc_verifier

Zero-knowledge identity gating: users register an identity commitment,
submit proofs whose public signals carry that commitment, a single-use
nullifier, a credential level and an epoch, and gated actions admit users
whose recorded level reaches the level the admin requires.

- `src/` — the verified library (Verus):
  - `types.rs`: addresses, errors and their codes, events, the verification key;
  - `bytes.rs`: byte-string comparison and the big-endian level reading;
  - `keyed.rs`: `ByteKeyMap`, a map keyed by 32-byte strings;
  - `state.rs`: the stored state as a mathematical value (`GateState`) and
    what each operation decides and does to it;
  - `contract.rs`: `ZkKycVerifier`, the operations, each proved against `state.rs`;
  - `laws.rs`: properties across operations (single-use nullifiers,
    permanent commitments, revocation, expiry, ...).
- `tests/` — tests of the library on concrete values.
- `app/` — the Soroban contract around the library: authorization, ledger
  time, persistent storage and events.
