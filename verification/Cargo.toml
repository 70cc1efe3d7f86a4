[package]
name = "ftp_core"
version = "0.1.0"
edition = "2021"
publish = false

[dependencies]
anyhow = "1"
async-trait = "0.1"
ftp = "3"
log = "0.4"
serde = { version = "1", features = ["derive"] }
tokio = { version = "1", features = ["sync"] }
