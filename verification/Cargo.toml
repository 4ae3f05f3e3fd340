[package]
name = "token_entangler"
version = "0.1.0"
edition = "2021"
publish = false

[dependencies]
anchor-lang = "=1.2.1"
anchor-spl = { version = "=1.2.1", features = ["metadata"] }
spl-token = "=9.0.0"
