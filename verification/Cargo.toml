[package]
name = "apollo_client"
version = "0.1.0"
edition = "2021"
publish = false

[dependencies]
hmac = "0.12"
sha1 = "0.10"
base64 = "0.13"
reqwest = { version = "0.11", default-features = false, features = ["json"] }
url = "2"
http = "0.2"
serde = { version = "1", features = ["derive"] }
serde_json = "1"
thiserror = "1"
async-stream = "0.3"
futures-core = "0.3"
futures-util = "0.3"
async-trait = "0.1"
rust-ini = "0.18"
chrono = "0.4"
hostname = "0.3"
once_cell = "1"
cidr-utils = "0.5"
systemstat = "0.2"
