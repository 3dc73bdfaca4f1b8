[package]
name = "artifex-client-gtk"
version = "0.1.0"
edition = "2021"
publish = false

[dependencies]
gettext-rs = { version = "0.7", features = ["gettext-system"] }
humantime = "2"
chrono = "0.4"
gtk4 = "*"
libadwaita = "*"
secret-service = { version = "4", features = ["rt-tokio-crypto-rust"] }
tokio = { version = "1", features = ["rt-multi-thread", "sync"] }
async-channel = "2"
futures-util = "0.3"
tracing = "0.1"
tracing-subscriber = "0.3"
thiserror = "2"
