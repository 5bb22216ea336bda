[package]
name = "rs_lib_ng"
version = "0.1.0"
edition = "2021"
publish = false

[dependencies]
rand = { version = "=0.8.8", features = ["small_rng"] }
chrono = { version = "=0.4.45", features = ["serde"] }
chrono-tz = "*"
tokio = { version = "1", features = ["sync", "time", "rt", "rt-multi-thread", "macros"] }
reqwest = { version = "0.12", default-features = false, features = ["json"] }
serde = { version = "1", features = ["derive"] }
serde_json = "1"
thiserror = "1"
arc-swap = "1"
base64 = "=0.22.1"
hex = "=0.4.3"
aes = "=0.8.4"
cbc = { version = "=0.1.2", features = ["block-padding", "alloc"] }
cipher = { version = "=0.4.4", features = ["block-padding"] }
figment = { version = "0.10", features = ["json", "env"] }
sysinfo = "0.30"
futures-util = "0.3"
tokio-tungstenite = "0.21"
