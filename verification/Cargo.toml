[package]
name = "pubsubman"
version = "0.1.0"
edition = "2021"
publish = false

[dependencies]
chrono = "=0.4.45"
clap = { version = "=4.6.7", features = ["derive"] }
egui = { version = "0.31", default-features = false }
egui_json_tree = "0.11"
egui-notify = "0.19"
env_logger = "=0.11.11"
futures = "=0.3.34"
futures-util = "=0.3.34"
google-cloud-gax = "=0.19.2"
google-cloud-googleapis = "=0.16.1"
google-cloud-pubsub = "=0.30.0"
serde = { version = "=1.0.229", features = ["derive"] }
serde_json = "=1.0.154"
time = "=0.3.55"
tokio = { version = "=1.54.1", features = ["rt-multi-thread", "macros", "sync", "time"] }
tokio-util = "=0.7.20"
uuid = { version = "=1.29.0", features = ["v4"] }
