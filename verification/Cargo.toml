[package]
name = "intents_vault"
version = "0.1.0"
edition = "2021"
publish = false

[dependencies]
near-sdk = "=5.5.0"
