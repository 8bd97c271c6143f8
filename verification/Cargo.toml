[package]
name = "typst_tokens"
version = "0.1.0"
edition = "2021"
publish = false

[dependencies]
typst-syntax = "0.11"
serde = { version = "1", features = ["derive"] }
