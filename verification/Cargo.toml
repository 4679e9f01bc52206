[package]
name = "jsrt"
version = "0.1.0"
edition = "2021"
publish = false

[dependencies]
rquickjs = { version = "*", features = ["macro"] }
anyhow = "1"
thiserror = "1"
clap = { version = "4", features = ["derive"] }
