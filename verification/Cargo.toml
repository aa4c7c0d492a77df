[package]
name = "prng_seed"
version = "0.1.0"
edition = "2021"
publish = false

[dependencies]
blake3 = "1"
rand = "0.8"
rand_pcg = "0.3"
serde = { version = "1", features = ["derive"] }
