[package]
name = "chess_client"
version = "0.1.0"
edition = "2021"
publish = false

[dependencies]
log = "=0.4.34"
env_logger = "=0.11.11"
tokio = { version = "=1.53.2", features = ["net", "time", "rt-multi-thread", "macros", "io-util"] }
