[package]
name = "mailjet_rs"
version = "0.1.0"
edition = "2021"
publish = false

[dependencies]
serde_json = "*"
http-auth-basic = "*"
url = "*"
base64 = "0.13"
reqwest = { version = "*", default-features = false }
tokio = { version = "*", features = ["rt-multi-thread", "macros"] }
