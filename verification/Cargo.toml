[package]
name = "salvo_extra"
version = "0.1.0"
edition = "2021"
publish = false

[dependencies]
futures-util = { version = "=0.3.34", default-features = false, features = ["sink"] }
hyper = "=0.14.32"
salvo_core = "=0.23.2"
tokio-tungstenite = { version = "=0.17.2", default-features = false }
tracing = "=0.1.44"
