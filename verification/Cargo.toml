[package]
name = "iroha_introspect"
version = "0.1.0"
edition = "2021"
publish = false

[dependencies]
blake2 = "0.10"
parity-scale-codec = { version = "3.7.5", features = ["derive"] }
serde = { version = "1.0.229", features = ["derive"] }
syn = { version = "1.0.109", features = ["full", "extra-traits"] }
quote = "1.0.47"
proc-macro2 = "1.0.107"
