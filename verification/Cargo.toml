[package]
name = "serde_untagged"
version = "0.1.0"
edition = "2021"
publish = false

[dependencies]
erased-serde = "0.4"
serde = "1"
typeid = "1"

[dev-dependencies]
serde_json = "1"
