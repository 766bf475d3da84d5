[package]
name = "shimmy"
version = "0.1.0"
edition = "2021"
publish = false

[dependencies]
anyhow = "*"
async-trait = "*"
axum = "*"
chrono = "*"
serde_json = "*"
shimmy-llama-cpp-2 = "*"
sys-info = "*"
tokio = { version = "*", features = ["full"] }
