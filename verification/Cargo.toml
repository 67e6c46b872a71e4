[package]
name = "magic-nix-cache"
version = "0.1.0"
edition = "2021"
publish = false

[dependencies]
attic = "*"
axum = { version = "0.7", default-features = false, features = ["json", "tokio", "http1"] }
axum-macros = "0.4"
serde = { version = "1", features = ["derive"] }
tokio = { version = "1", features = ["sync"] }
tracing = "0.1"
