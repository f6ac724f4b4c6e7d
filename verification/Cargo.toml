[package]
name = "pipeline_core"
version = "0.1.0"
edition = "2021"
publish = false

[dependencies]
base64 = "0.22"
openssl = "0.10"
serde_json = "1"
url = "2"
uuid = { version = "1", features = ["v4"] }
futures = "0.3"
