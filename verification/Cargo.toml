[package]
name = "timetrack"
version = "0.1.0"
edition = "2021"
publish = false

[dependencies]
chrono = { version = "=0.4.45", features = ["serde"] }
uuid = { version = "=1.29.0", features = ["v4"] }
percent-encoding = "=2.3.2"
url = "=2.5.8"
serde = { version = "1", features = ["derive"] }
serde_json = "1"
axum = "0.8"
tokio = { version = "1", features = ["rt-multi-thread", "macros", "net"] }
diesel = { version = "2", features = ["mysql", "chrono"] }
dotenvy = "0.15"
env_logger = "0.11"
log = "0.4"
once_cell = "1"
http-body-util = "0.1"
