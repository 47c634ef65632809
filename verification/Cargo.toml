[package]
name = "network_monitor_lib"
version = "0.1.0"
edition = "2021"
publish = false

[dependencies]
reqwest = { version = "*", default-features = false, features = ["stream"] }
tokio = { version = "*", features = ["rt-multi-thread", "macros", "time"] }
futures = "*"
serde = { version = "*", features = ["derive"] }
ping-rs = "*"
