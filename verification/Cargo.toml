[package]
name = "conduit_core"
version = "0.1.0"
edition = "2021"
publish = false

[dependencies]
argon2 = "=0.6.0"
chrono = "=0.4.45"
jsonwebtoken = { version = "=11.1.0", default-features = false, features = ["rust_crypto"] }
slug = "=0.1.6"
validator = "=0.21.0"
