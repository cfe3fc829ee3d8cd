[package]
name = "reflective-pipewire"
version = "0.1.0"
edition = "2021"
publish = false

[dependencies]
dashmap = "6"
serde_json = "1"
serde = { version = "1", features = ["derive"] }
tokio = { version = "1", features = ["full"] }
openaction = "*"
async-trait = "0.1"
log = "0.4"
simplelog = "*"
