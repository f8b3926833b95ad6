[package]
name = "jmap_gateway"
version = "0.1.0"
edition = "2021"
publish = false

[dependencies]
base64 = "=0.13.1"
flurry = "=0.5.2"
serde = { version = "1", features = ["derive"] }
serde_json = "1"
tide = "=0.16.0"
async-std = { version = "1", features = ["attributes"] }
async-trait = "0.1"
async-imap = "=0.5.0"
async-native-tls = "=0.3.3"
futures = "0.3"
