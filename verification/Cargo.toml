[package]
name = "federation_join"
version = "0.1.0"
edition = "2021"
publish = false

[dependencies]
js_int = "0.1"
ruma-api = "0.16"
ruma-events = "0.21"
ruma-identifiers = "0.16"
serde = { version = "1", features = ["derive"] }
serde_json = "1"
