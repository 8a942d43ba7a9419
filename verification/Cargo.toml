[package]
name = "ferrisshare"
version = "0.1.0"
edition = "2021"
publish = false

[dependencies]
tokio = { version = "*", features = ["net", "io-util", "rt-multi-thread", "macros", "sync"] }
clap = { version = "*", features = ["derive"] }
anyhow = "*"
dotenv = "*"
