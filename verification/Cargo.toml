[package]
name = "authgate"
version = "0.1.0"
edition = "2021"
publish = false

[dependencies]
async-trait = "0.1"
futures = "0.3"
http = "0.2"
hyper = "0.14"
log = "0.4"
ring = "0.17"
rustc-serialize = "0.3"
serde = { version = "1", features = ["derive"] }
serde_derive = "1"
serde_json = "1"
