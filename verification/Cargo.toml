[package]
name = "chat_launch"
version = "0.1.0"
edition = "2021"
publish = false

[dependencies]
shlex = "1.3"
uuid = { version = "1", features = ["v4"] }
clap = { version = "4.5", features = ["derive"] }
color-print = "0.3"
crossterm = "0.28"
eyre = "0.6"
rustyline = "15"
spinners = "4.1"
thiserror = "2"
tokio = { version = "1", features = ["rt", "macros", "sync"] }
tracing = "0.1"
