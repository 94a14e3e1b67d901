[package]
name = "browser_cli"
version = "0.1.0"
edition = "2021"
publish = false

[dependencies]
anyhow = "*"
chromiumoxide = "*"
chrono = "*"
clap = { version = "*", features = ["derive"] }
colored = "*"
futures-util = "*"
md5 = "*"
rustyline = "*"
serde_json = "*"
tokio = { version = "*", features = ["macros", "rt-multi-thread", "signal", "time", "sync", "fs"] }
url = "*"
