[package]
name = "evss"
version = "0.1.0"
edition = "2021"
publish = false

[dependencies]
ark-bls12-381 = "0.3"
ark-ec = "0.3"
ark-ff = "0.3"
ark-poly = "0.3"
ark-poly-commit = "0.3"
ark-serialize = "0.3"
ark-std = "0.3"
rand = "0.8"
rand_core = "0.6"
serde = { version = "1", features = ["derive"] }

[dev-dependencies]
serde_json = "1"
