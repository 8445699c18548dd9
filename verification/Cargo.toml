[package]
name = "recrypt_binding"
version = "0.1.0"
edition = "2021"
publish = false

[dependencies]
recrypt = "=0.13.1"
ironcore-search-helpers = "=0.2.0"
rand = "=0.8.8"
rand_chacha = "=0.3.1"
rand_core = "=0.6.4"
serde = { version = "=1.0.229", features = ["derive"] }
serde_json = "=1.0.151"
