[package]
name = "instance_spec"
version = "0.1.0"
edition = "2021"
publish = false

[dependencies]
anyhow = "1"
dropshot = "0.12"
serde = { version = "1", features = ["derive"] }
serde_json = "1"
slog = "2"
thiserror = "1"
tokio = { version = "1", features = ["time"] }
toml = "0.7"
uuid = { version = "1", features = ["v4"] }
