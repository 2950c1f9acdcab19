[package]
name = "gears"
version = "0.1.0"
edition = "2021"
publish = false

[dependencies]
uuid = { version = "=1.29.0", features = ["serde"] }
serde_json = "=1.0.154"
chrono = { version = "=0.4.45", features = ["serde"] }
gts = "=0.16.2"
serde = { version = "=1.0.229", features = ["derive"] }
async-trait = "0.1"
thiserror = "2"
anyhow = "1"
axum = "0.8"
tokio = { version = "1", features = ["macros", "rt-multi-thread", "sync"] }
tracing = "0.1"
schemars = { version = "1", features = ["chrono04"] }
