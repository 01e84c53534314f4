[package]
name = "s3_fetch"
version = "0.1.0"
edition = "2021"
publish = false

[dependencies]
anyhow = "1"
chrono = { version = "=0.4.45", default-features = false, features = ["std"] }
clap = { version = "4", features = ["derive"] }
futures-util = "0.3"
lazy_static = "1"
quick-xml = { version = "=0.42.0", features = ["serialize"] }
reqwest = { version = "=0.13.5", features = ["stream"] }
serde = { version = "1", features = ["derive"] }
tokio = { version = "1", features = ["rt-multi-thread", "macros", "fs", "io-util"] }
