[package]
name = "range_proof_verifier"
version = "0.1.0"
edition = "2021"
publish = false

[dependencies]
bulletproofs = { version = "4.0.0", default-features = false, features = ["std"] }
curve25519-dalek-ng = "4"
merlin = "3"
actix-web = "4"
serde = { version = "1", features = ["derive"] }
