[package]
name = "virtuoso_cli"
version = "0.1.0"
edition = "2021"
publish = false

[dependencies]
serde = { version = "1", features = ["derive"] }
serde_json = "1"
unicode-width = "*"
shlex = "*"
sha2 = "*"
hex = "*"
clap = { version = "4", features = ["derive"] }
dirs = "*"
chrono = "*"
dotenvy = "*"
uuid = { version = "1", features = ["v4"] }
libc = "*"
crossterm = "*"
ratatui = "*"
tracing = "*"
tracing-subscriber = { version = "*", features = ["env-filter"] }
thiserror = "*"
