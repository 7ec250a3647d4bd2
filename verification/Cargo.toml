[package]
name = "haak"
version = "0.1.0"
edition = "2021"
publish = false

[dependencies]
agent-client-protocol = "1"
anyhow = "1"
futures = "0.3"
serde_json = "1"
tungstenite = "0.26"
