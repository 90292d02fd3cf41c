[package]
name = "fusen_interface"
version = "0.1.0"
edition = "2021"
publish = false

[dependencies]
tonic = { version = "=0.14.6", default-features = false }

[dev-dependencies]
anyhow = "=1.0.104"
