[package]
name = "http_sh"
version = "0.1.0"
edition = "2021"
publish = false

[dependencies]
clap = { version = "3.2", features = ["derive"] }
command-fds = { version = "0.2", features = ["tokio"] }
futures = "0.3"
http = "0.2"
hyper = { version = "0.14", features = ["full"] }
hyper-staticfile = "0.9"
nix = "0.26"
rustls = "0.20"
rustls-pemfile = "1"
scru128 = "*"
serde = { version = "1", features = ["derive"] }
serde_json = "1"
tokio = { version = "1", features = ["full"] }
tokio-pipe = "0.2"
tokio-rustls = "0.23"
tokio-util = { version = "0.7", features = ["io"] }
url = "2"
