[package]
name = "ferroflow"
version = "0.1.0"
edition = "2021"
publish = false

[dependencies]
metal = "*"
rand = "0.8"
thiserror = "1"
tracing-subscriber = { version = "0.3", features = ["env-filter"] }
