[package]
name = "context_server"
version = "0.1.0"
edition = "2021"
publish = false

[dependencies]
anyhow = "1.0"
async-trait = "0.1"
futures = "0.3"
http = "1.1"
log = "0.4"
parking_lot = "0.12"
schemars = "1.0"
serde = { version = "1.0", features = ["derive"] }
serde_json = "1.0"
smol = "2.0"
thiserror = "2.0"
url = "2.5"
