[package]
name = "rooch_core"
version = "0.1.0"
edition = "2021"
publish = false

[dependencies]
hex = "=0.4.3"
rustc-hex = "=2.1.0"
serde = { version = "1", features = ["derive"] }
schemars = "0.8"
