[package]
name = "teleflow_core"
version = "0.1.0"
edition = "2021"
publish = false

[dependencies]
anyhow = "*"
base64 = "*"
chrono = "*"
moka = { version = "*", features = ["future"] }
ractor = "*"
rmp-serde = "*"
serde = { version = "*", features = ["derive"] }
serde_json = "*"
sqlx = { version = "*", features = ["sqlite", "runtime-tokio", "chrono"] }
thiserror = "*"
tokio = { version = "*", features = ["sync", "rt", "time"] }
tracing = "*"
