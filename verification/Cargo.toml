[package]
name = "ergosphere"
version = "0.1.0"
edition = "2021"
publish = false

[dependencies]
url = "=2.5.8"
reqwest = { version = "=0.12.28", default-features = false, features = ["json", "multipart", "cookies", "stream", "rustls-tls"] }
tokio = { version = "=1.54.1", features = ["full"] }
clap = { version = "=4.6.7", features = ["derive"] }
config = { version = "=0.15.27", default-features = false, features = ["toml"] }
dirs = "=6.0.0"
toml = "=0.8.23"
serde = { version = "=1.0.229", features = ["derive"] }
serde_json = "=1.0.154"
notify = "=8.2.1"
notify-debouncer-full = "=0.5.0"
tracing = "=0.1.44"
tracing-core = "=0.1.36"
tracing-error = "=0.2.1"
tracing-subscriber = { version = "=0.3.23", features = ["env-filter"] }
futures-util = "=0.3.34"
anyhow = "=1.0.104"
thiserror = "=2.0.21"
