[package]
name = "poseidon2_starky"
version = "0.1.0"
edition = "2021"
publish = false

[dependencies]
starky = "*"
plonky2 = "*"

[dev-dependencies]
zkhash = "*"
