[package]
name = "ftp_client"
version = "0.1.0"
edition = "2021"
publish = false

[dependencies]
crossterm = "0.25"
snafu = "0.7"
tokio = { version = "1", features = ["rt", "rt-multi-thread", "net", "io-util"] }
tui = "0.19"
