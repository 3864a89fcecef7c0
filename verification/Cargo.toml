[package]
name = "stockbot"
version = "0.1.0"
edition = "2021"
publish = false

[dependencies]
json = "=0.11.15"
reqwest = "=0.9.19"
serde = "1"
serde_derive = "1"
serenity = { version = "=0.6.4", default-features = false, features = ["builder", "http", "model", "utils", "native_tls_backend"] }
