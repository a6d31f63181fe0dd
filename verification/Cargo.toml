[package]
name = "bot_core"
version = "0.1.0"
edition = "2021"
publish = false

[dependencies]
rg3d = "0.19"
ron = "0.6"
serde = { version = "1", features = ["derive"] }
rand = "0.8"
