[package]
name = "moro_host"
version = "0.1.0"
edition = "2021"
publish = false

[dependencies]
base64 = "=0.22.1"
calamine = "0.37"
chrono = "=0.4.45"
futures-util = "=0.3.34"
ico = "=0.3.0"
image = { version = "=0.25.10", default-features = false, features = ["png", "jpeg", "ico", "bmp", "gif"] }
once_cell = "=1.21.4"
reqwest = { version = "=0.12.28", default-features = false, features = ["json", "stream", "rustls-tls"] }
rusqlite = { version = "=0.32.1", features = ["bundled"] }
rust_xlsxwriter = "=0.79.4"
scraper = "=0.20.0"
serde = { version = "=1.0.229", features = ["derive"] }
serde_json = "=1.0.154"
temp-dir = "=0.1.16"
tokio = { version = "=1.54.1", features = ["full"] }
uuid = { version = "=1.29.0", features = ["v4"] }
