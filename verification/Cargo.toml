[package]
name = "tatum"
version = "0.1.0"
edition = "2021"
publish = false

[dependencies]
tera = { version = "=2.4.0", default-features = false }
markdown = "=1.0.0"
anyhow = "=1.0.104"
axum = { version = "=0.8.9", features = ["ws"] }
clap = { version = "=4.6.7", features = ["derive"] }
colored = "=3.1.1"
inquire = "=0.9.4"
open = "=5.4.4"
resolve-path = "=0.1.0"
serde = { version = "=1.0.229", features = ["derive"] }
serde_json = "=1.0.151"
tokio = { version = "=1.53.2", features = ["full"] }
tower-http = { version = "=0.7.1", features = ["fs"] }
tracing = "=0.1.44"
tracing-subscriber = "=0.3.23"
