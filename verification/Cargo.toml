[package]
name = "server_score"
version = "0.1.0"
edition = "2021"
publish = false

[dependencies]
log = "0.4"
rand = "0.9"
serde = { version = "1", features = ["derive"] }
thiserror = "2"
