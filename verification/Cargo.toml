[package]
name = "economic_fact_engine"
version = "0.1.0"
edition = "2021"
publish = false

[dependencies]
sha2 = "=0.10.9"
ark-ff = "=0.4.2"
ark-bls12-381 = "=0.4.0"
ark-crypto-primitives = { version = "=0.4.0", features = ["r1cs", "crh"] }
ark-groth16 = "=0.4.0"
ark-r1cs-std = "=0.4.0"
ark-relations = "=0.4.0"
ark-serialize = "=0.4.2"
ark-snark = "=0.4.0"
rand = "=0.8.8"
serde = { version = "=1.0.229", features = ["derive"] }
serde_with = "=3.24.0"
thiserror = "=1.0.69"
soroban-sdk = "=22.0.11"

[dev-dependencies]
serde_json = "=1.0.154"
