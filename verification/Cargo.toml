[package]
name = "cubic_circuit"
version = "0.1.0"
edition = "2021"
publish = false

[dependencies]
halo2_proofs = "0.1"
rand = "0.8"
