[package]
name = "buzzrelay"
version = "0.1.0"
edition = "2021"
publish = false

[dependencies]
deunicode = "=1.3.3"
urlencoding = "=2.1.3"
http_digest_headers = "=0.1.0"
lru = "=0.19.0"
url = "=2.5.8"
httpdate = "=1.0.3"
chrono = { version = "=0.4.45", default-features = false, features = ["std", "clock"] }
serde = { version = "=1.0.229", features = ["derive"] }
serde_json = "=1.0.154"
serde_yaml = "=0.9.34"
sigh = "=1.0.3"
http = "=1.5.0"
thiserror = "=2.0.21"
futures = "=0.3.34"
eventsource-stream = "=0.2.3"
tokio = { version = "=1.54.1", features = ["full"] }
reqwest = { version = "=0.13.5", default-features = false, features = ["json", "stream"] }
axum = "=0.8.9"
tower-http = { version = "=0.7.1", features = ["fs"] }
tracing = "=0.1.44"
tracing-subscriber = { version = "=0.3.23", features = ["env-filter"] }
metrics = "=0.24.6"
metrics-util = "=0.20.4"
metrics-exporter-prometheus = "=0.18.3"
redis = { version = "=1.8.0", features = ["tokio-comp", "connection-manager"] }
tokio-postgres = "=0.7.18"
systemd = "=0.10.1"
