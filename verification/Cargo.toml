[package]
name = "tiberqueries"
version = "0.1.0"
edition = "2021"
publish = false

[dependencies]
tiberius = "*"
tokio = { version = "*", features = ["net"] }
tokio-util = { version = "*", features = ["compat"] }
