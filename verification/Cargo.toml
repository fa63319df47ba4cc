[package]
name = "fetchfile"
version = "0.1.0"
edition = "2021"
publish = false

[dependencies]
ansi_term = "*"
chrono = "*"
url = "*"
clap = { version = "*", features = ["derive"] }
futures-util = "*"
indicatif = "*"
reqwest = { version = "*", default-features = false, features = ["stream"] }
tokio = { version = "*", features = ["macros", "rt-multi-thread", "fs", "io-util"] }
