[package]
name = "deepfry"
version = "0.1.0"
edition = "2021"
publish = false

[dependencies]
rand = { version = "0.8", features = ["small_rng"] }
image = { version = "0.25", default-features = false, features = ["png", "jpeg"] }
clap = { version = "4", features = ["derive"] }
clap-num = "*"
serde = { version = "1", features = ["derive"] }
toml = "0.8"
base64 = "0.22"
