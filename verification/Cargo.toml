[package]
name = "pinup_supervisor"
version = "0.1.0"
edition = "2021"
publish = false

[dependencies]
portpicker = "=0.1.1"
dirs = "=7.0.0"
log = "=0.4.34"
env_logger = "=0.11.11"
serde = { version = "=1.0.229", features = ["derive"] }
reqwest = { version = "=0.13.5", default-features = false }
tokio = { version = "=1.53.2", features = ["rt-multi-thread", "macros", "time", "process", "sync", "io-util", "io-std"] }
