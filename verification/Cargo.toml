[package]
name = "pairing_circuits"
version = "0.1.0"
edition = "2021"
publish = false

[dependencies]
ark-bls12-377 = { version = "0.3", features = ["curve", "r1cs"] }
ark-bls12-381 = "0.3"
ark-ec = "0.3"
ark-ff = "0.3"
ark-nonnative-field = "0.3"
ark-r1cs-std = "0.3"
ark-relations = "0.3"
ark-serialize = "0.3"
ark-sponge = { version = "0.3", features = ["r1cs"] }
ark-std = "0.3"
rand = "0.8"
