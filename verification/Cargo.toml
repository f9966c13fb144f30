[package]
name = "recon_server"
version = "0.1.0"
edition = "2021"
publish = false

[dependencies]
uuid = { version = "1", features = ["v4", "serde"] }
chrono = { version = "0.4", features = ["serde"] }
serde = { version = "1", features = ["derive"] }
ndarray = { version = "0.15", features = ["serde"] }
csv = "1"
image = { version = "0.24", default-features = false, features = ["png"] }
axum = "0.7"
tokio = { version = "1", features = ["full"] }
sysinfo = "0.30"
num_cpus = "1"
env_logger = "0.11"
rand = "0.8"
reqwest = { version = "0.12", default-features = false, features = ["json"] }
