[package]
name = "evidence_api"
version = "0.1.0"
edition = "2021"
publish = false

[dependencies]
sha1 = "0.10"
sha2 = "0.10"
hex = "0.4"
hashbrown = "0.14"
