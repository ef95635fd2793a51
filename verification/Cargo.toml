[package]
name = "msb_operator"
version = "0.1.0"
edition = "2021"
publish = false

[dependencies]
anyhow = "1"
async-stream = "0.3"
axum = { version = "=0.8.9", features = ["ws"] }
backon = "1"
chrono = "=0.4.45"
clap = { version = "4", features = ["derive", "env"] }
futures = "0.3"
hex = "=0.4.3"
hostname = "0.4"
k8s-openapi = { version = "=0.27.1", features = ["latest", "schemars"] }
kube = { version = "=3.1.0", features = ["runtime", "derive"] }
kube-leader-election = "=0.43.0"
microsandbox-types = "=0.6.18"
notify = "=8.2.1"
prost = "0.14"
reqwest = { version = "=0.13.5", default-features = false, features = ["json"] }
schemars = "1"
serde = { version = "1", features = ["derive"] }
serde_json = "=1.0.154"
serde_yaml = "0.9"
sha2 = "=0.10.9"
thiserror = "2"
tokio = { version = "1", features = ["full"] }
tokio-stream = { version = "0.1", features = ["net"] }
tokio-tungstenite = "=0.29.0"
tonic = "=0.14.9"
tonic-prost = "0.14"
tracing = "0.1"
tracing-subscriber = { version = "0.3", features = ["env-filter"] }
