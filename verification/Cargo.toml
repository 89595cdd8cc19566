[package]
name = "lib8080_msg"
version = "0.1.0"
edition = "2021"
publish = false

[dependencies]
serde = { version = "1", features = ["derive"] }
serde_json = "1"
tokio = { version = "1", features = ["rt-multi-thread", "macros", "net", "io-util", "sync", "signal"] }
async-sqlite = "*"
clap = { version = "4", features = ["derive"] }
color-print = "*"
cursive = { version = "*", default-features = false, features = ["crossterm-backend"] }
log = "0.4"
pretty_env_logger = "*"
