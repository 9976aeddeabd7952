[package]
name = "stix"
version = "0.1.0"
edition = "2021"
publish = false

[dependencies]
petgraph = "*"
serde = { version = "*", features = ["derive"] }
strum = { version = "*", features = ["derive"] }
