[package]
name = "steam_input_bridge"
version = "0.1.0"
edition = "2021"
publish = false

[dependencies]
steamworks = { version = "=0.12.2", features = ["raw-bindings"] }
serde = { version = "=1.0.229", features = ["derive"] }
