[package]
name = "eink_reconciler"
version = "0.1.0"
edition = "2021"
publish = false

[dependencies]
anyhow = "*"
async-trait = "*"
env_logger = "*"
log = "*"
postcard = { version = "*", features = ["alloc"] }
ron = "*"
serde = { version = "*", features = ["derive"] }
serde_json = "*"
tokio = { version = "*", features = ["full"] }
