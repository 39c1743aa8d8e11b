[package]
name = "shielded_gadgets"
version = "0.1.0"
edition = "2021"
publish = false

[dependencies]
anyhow = "=1.0.104"
ark-ff = "=0.4.2"
ark-r1cs-std = "=0.4.0"
ark-relations = "=0.4.0"
decaf377 = { version = "=0.10.1", features = ["r1cs"] }
decaf377-frost = "=2.1.1"
decaf377-rdsa = "=0.11.0"
ed25519-consensus = "=2.1.0"
once_cell = "=1.21.4"
poseidon377 = { version = "=1.2.0", features = ["r1cs"] }
rand_core = { version = "=0.6.4", features = ["getrandom"] }

[dev-dependencies]
blake2b_simd = "=1.0.5"
