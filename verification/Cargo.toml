[package]
name = "smtp_capture"
version = "0.1.0"
edition = "2021"
publish = false

[dependencies]
clap = "2"
num_cpus = "1"
serde = { version = "1", features = ["derive"] }
threadpool = "1"
tokio = { version = "1", features = ["rt", "net", "time"] }
warp = { version = "0.3", default-features = false }
