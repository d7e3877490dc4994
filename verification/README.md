# economic_fact_engine

The verified core of a private remittance corridor built on a shielded pool
with Groth16 proofs over BLS12-381.

- `src/` — the library, verified with Verus:
  - `bytes` — big-endian encodings and their numeric meaning;
  - `hashing` — SHA-256 and the reduction of 32-byte strings to scalars;
  - `types` — notes, commitments, nullifiers, proofs, public inputs, Merkle
    paths, KYC credentials and the corridor's constants;
  - `errors` — the corridor's error vocabulary and its privacy invariant;
  - `notes` — commitments, nullifiers and Merkle roots;
  - `circuits` — the deposit, withdrawal and compliance circuits, and the
    evaluation of their constraints on the witness assignment that synthesis
    derives from a circuit's values;
  - `prover` — input validation, witness construction, proof framing and
    public-input encoding around a Groth16 prover;
  - `vk_registry` — the verifier contract's key registry and proof checks;
  - `pool` — the shielded pool contract's entry points.
- `app/` — serde forms of the types, R1CS synthesis of the circuits with
  arkworks gadgets, and Groth16 proving with a proving key.
- `tests/` — tests of the library.
