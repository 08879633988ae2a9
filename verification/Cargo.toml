[package]
name = "http_visualizer_app"
version = "0.1.0"
edition = "2021"
publish = false

[dependencies]
url = "=2.5.8"
flate2 = "=1.1.10"
brotli = "=9.0.0"
base64 = "=0.22.1"
x509-parser = "=0.16.0"
hyper = { version = "=1.12.0", features = ["client", "http1"] }
hyper-util = { version = "=0.1.21", features = ["tokio"] }
http-body-util = "=0.1.5"
tokio = { version = "=1.54.1", features = ["full"] }
tokio-rustls = { version = "=0.26.6", default-features = false, features = ["ring", "tls12", "logging"] }
rustls = { version = "=0.23.46", default-features = false, features = ["ring", "std", "tls12", "logging"] }
webpki-roots = "=0.26.11"
hickory-resolver = "=0.24.4"
serde = { version = "=1.0.229", features = ["derive"] }
serde_json = "=1.0.154"
axum = "=0.7.9"
tower-http = { version = "=0.5.2", features = ["cors", "trace"] }
tracing = "=0.1.44"
tracing-subscriber = { version = "=0.3.23", features = ["env-filter"] }
thiserror = "=1.0.69"
reqwest = { version = "=0.12.28", default-features = false }
mime_guess = "=2.0.5"
rust-embed = { version = "=8.13.0", features = ["interpolate-folder-path"] }
rusqlite = { version = "=0.41.0", features = ["bundled"] }
