[package]
name = "warpfox"
version = "0.1.0"
edition = "2021"
publish = false

[dependencies]
futures-util = "*"
indicatif = "*"
log = "*"
reqwest = { version = "*", default-features = false, features = ["rustls-tls", "stream"] }
serde_json = "*"
simple_logger = "*"
tempfile = "*"
tokio = { version = "*", features = ["macros", "rt-multi-thread", "signal", "time", "sync"] }
