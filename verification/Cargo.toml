[package]
name = "esm"
version = "0.1.0"
edition = "2021"
publish = false

[dependencies]
axum = { version = "=0.5.17", features = ["headers", "ws"] }
axum-macros = "=0.2.3"
chrono = "=0.4.45"
headers = "=0.3.9"
jsonwebtoken = "=8.3.0"
once_cell = "=1.21.4"
rbatis = "=4.9.8"
rbdc-mssql = "4.9"
rbdc-mysql = "4.9"
rbdc-pg = "4.9"
rbdc-sqlite = "4.9"
rbs = "=4.8.4"
serde = { version = "=1.0.229", features = ["derive"] }
serde_json = "=1.0.154"
sysinfo = "=0.28.4"
tokio = { version = "=1.54.1", features = ["full"] }
toml = "=0.5.11"
tower = "=0.4.13"
tower-http = { version = "=0.3.5", features = ["cors"] }
tracing = "=0.1.44"
tracing-subscriber = "=0.3.23"
