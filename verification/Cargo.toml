[package]
name = "mcp_iplocate"
version = "0.1.0"
edition = "2021"
publish = false

[dependencies]
serde_json = "=1.0.151"
anyhow = "=1.0.104"
deepseek-api = "=0.1.1"
dotenvy = "=0.15.7"
owo-colors = "=4.4.0"
rmcp = { version = "=3.5.1", features = ["client", "transport-child-process"] }
schemars = "0.8"
tokio = { version = "=1.53.2", features = ["full"] }
