[package]
name = "export_worker"
version = "0.1.0"
edition = "2021"
publish = false

[dependencies]
anyhow = "1"
futures = "0.3"
libc = "0.2"
memory-stats = "1"
thiserror = "2"
tokio = { version = "1", features = ["rt"] }
tracing = "0.1"
