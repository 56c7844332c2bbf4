[package]
name = "penput"
version = "0.1.0"
edition = "2021"
publish = false

[dependencies]
anyhow = "*"
axum = { version = "*", features = ["ws"] }
chrono = "*"
display-info = "*"
enigo = "*"
futures = "*"
local-ip-address = "*"
serde = { version = "*", features = ["derive"] }
serde_json = "*"
tokio = { version = "*", features = ["full"] }
tower-http = { version = "*", features = ["fs", "set-header", "trace"] }
tracing = "*"
tracing-subscriber = "*"
