[package]
name = "masp_primitives"
version = "0.1.0"
edition = "2021"
publish = false

[dependencies]
blake2b_simd = "1"
bls12_381 = "0.7"
borsh = { version = "0.9", features = ["const-generics"] }
group = "0.12"
jubjub = "0.9"
