[package]
name = "clubfridge_neo"
version = "0.1.0"
edition = "2021"
publish = false

[dependencies]
jiff = "*"
rust_decimal = "*"
ulid = "*"
sqlx = { version = "*", default-features = false, features = ["runtime-tokio", "sqlite"] }
tokio = { version = "*", features = ["rt-multi-thread", "macros", "time", "sync"] }
clap = { version = "*", features = ["derive"] }
serde = { version = "*", features = ["derive"] }
serde_json = "*"
anyhow = "*"
secrecy = "*"
