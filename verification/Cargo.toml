[package]
name = "sps_eq"
version = "0.1.0"
edition = "2021"
publish = false

[dependencies]
ark-ec = "=0.3.0"
ark-ff = "=0.3.0"
ark-serialize = "=0.3.0"
ark-bls12-381 = "=0.3.0"
rand = "0.8"
zeroize = "1"
