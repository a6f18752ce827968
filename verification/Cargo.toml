[package]
name = "hyper_socks2"
version = "0.1.0"
edition = "2021"
publish = false

[dependencies]
async-socks5 = "=0.5.1"
futures = "=0.3.34"
http = "=0.2.12"
hyper = { version = "=0.14.32", features = ["client", "http1", "tcp"] }
hyper-tls = "=0.5.0"
thiserror = "=1.0.69"
tokio = "=1.54.1"
tokio-native-tls = "=0.3.1"
