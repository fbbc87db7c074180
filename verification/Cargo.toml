[package]
name = "thin_edge"
version = "0.1.0"
edition = "2021"
publish = false

[dependencies]
anyhow = "1"
async-trait = "0.1"
axum = "0.6"
bytes = "1"
camino = "1"
clap = { version = "3", features = ["derive", "cargo"] }
fastrand = "*"
http = "0.2"
hyper = { version = "0.14", features = ["full"] }
log = "0.4"
nix = "0.26"
path-clean = "0.1"
rumqttc = "*"
serde = { version = "1", features = ["derive"] }
serde_json = "1"
thiserror = "1"
time = { version = "0.3", features = ["formatting", "parsing"] }
tokio = { version = "1", features = ["full"] }
toml = "0.5"
tracing = "0.1"
tracing-subscriber = { version = "0.3", features = ["time"] }
url = "2"
