[package]
name = "unified_gateway"
version = "0.1.0"
edition = "2021"
publish = false

[dependencies]
uuid = { version = "*", features = ["v4"] }
serde = { version = "*", features = ["derive"] }
serde_json = "*"
reqwest = { version = "*", default-features = false, features = ["blocking", "json"] }
anyhow = "*"
thiserror = "*"
envconfig = "*"
hmac = "*"
sha1 = "*"
sha2 = "*"
