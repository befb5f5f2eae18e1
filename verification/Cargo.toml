[package]
name = "macmon-graph"
version = "0.1.0"
edition = "2021"
publish = false

[dependencies]
ratatui = { version = "=0.29.0", features = ["serde"] }
serde = { version = "=1.0.229", features = ["derive"] }
serde_json = "=1.0.154"
serde-inline-default = "=0.2.3"
