[package]
name = "vm_tables"
version = "0.1.0"
edition = "2021"
publish = false

[dependencies]
halo2_proofs = "*"
