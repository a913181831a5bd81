[package]
name = "mazonic"
version = "0.1.0"
edition = "2021"
publish = false

[dependencies]
hashbrown = { version = "0.14", features = ["serde"] }
sha2 = "0.10"
chacha20poly1305 = "0.10"
chrono = { version = "0.4", default-features = false, features = ["clock"] }
petgraph = { version = "0.6", features = ["serde-1"] }
serde = { version = "1", features = ["derive"] }
serde_json = "1"
ureq = { version = "2", default-features = false }
rand = "0.8"
rand_chacha = "0.3"
itertools = "0.13"
