[package]
name = "chain_registry"
version = "0.1.0"
edition = "2021"
publish = false

[dependencies]
bitcoin = "0.29"
hex = "0.4"
clap = { version = "4", features = ["derive"] }
serde = { version = "1", features = ["derive"] }
