[package]
name = "membrane"
version = "0.1.0"
edition = "2021"
publish = false

[dependencies]
anchor-lang = "0.24.2"
anchor-spl = { version = "0.24.2", default-features = false, features = ["token"] }
spl-token = { version = "3.3.0", features = ["no-entrypoint"] }
