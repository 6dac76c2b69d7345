[package]
name = "automation_core"
version = "0.1.0"
edition = "2021"
publish = false

[dependencies]
rhai = { version = "=1.26.1", features = ["sync"] }
handlebars = "=6.4.4"
serde = { version = "=1.0.229", features = ["derive"] }
serde_json = "=1.0.151"
serde_yaml = "*"
chrono = { version = "=0.4.45", features = ["serde"] }
uuid = { version = "*", features = ["v4"] }
axum = { version = "=0.8.9", features = ["ws"] }
tokio = { version = "*", features = ["full"] }
tokio-tungstenite = "*"
tower-http = { version = "*", features = ["cors", "fs"] }
futures = "*"
dotenv = "*"
log = "*"
tracing = "*"
tracing-subscriber = { version = "*", features = ["env-filter", "fmt"] }
walkdir = "*"
