[package]
name = "termbg"
version = "0.1.0"
edition = "2021"
publish = false

[dependencies]
crossterm = "*"
tokio = { version = "*", features = ["rt-multi-thread", "io-std", "io-util", "time"] }
winapi = { version = "0.3", features = ["wincon", "processenv", "winbase"] }
