[package]
name = "radcam_manager"
version = "0.1.0"
edition = "2021"
publish = false

[dependencies]
indexmap = { version = "=2.14.2", features = ["serde"] }
tera = { version = "=1.20.1", default-features = false }
mlua = { version = "=0.12.2", features = ["lua54", "vendored"] }
mavlink = { version = "=0.21.0", features = ["tokio", "mav2-message-extensions"] }
tokio = { version = "=1.54.1", features = ["full"] }
serde = { version = "=1.0.229", features = ["derive"] }
serde_json = "=1.0.154"
anyhow = "=1.0.104"
tracing = "=0.1.44"
chrono = "=0.4.45"
clap = { version = "=4.6.7", features = ["derive"] }
uuid = { version = "=1.29.0", features = ["serde", "v5"] }
once_cell = "=1.21.4"
shellexpand = "=3.1.2"
axum = "=0.8.9"
tower-http = { version = "=0.7.1", features = ["cors", "trace"] }
