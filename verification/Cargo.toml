[package]
name = "iotedge"
version = "0.1.0"
edition = "2021"
publish = false

[dependencies]
bytes = "=0.4.12"
chrono = { version = "=0.4.19", features = ["serde"] }
serde = { version = "=1.0.229", features = ["derive"] }
serde_json = "=1.0.154"
serde_yaml = "=0.8.26"
futures = "=0.1.31"
hyper = "=0.12.36"
tokio = "=0.1.22"
tokio-uds = "=0.2.7"
http = "=0.1.21"
url = "=1.7.2"
url_serde = "=0.2.0"
structopt = "=0.2.18"
failure = "=0.1.8"
windows-service = "=0.2.0"
actix-web = { version = "=1.0.9", default-features = false }
