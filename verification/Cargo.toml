[package]
name = "tera_plaintext_filters"
version = "0.1.0"
edition = "2021"
publish = false

[dependencies]
tera = "1"
serde_json = "1"
