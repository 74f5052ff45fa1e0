[package]
name = "grup"
version = "0.1.0"
edition = "2021"
publish = false

[dependencies]
comrak = "*"
futures-channel = "0.3"
hyper = { version = "0.14", features = ["server", "http1", "tcp"] }
tokio = { version = "1", features = ["rt-multi-thread", "macros", "fs", "io-util", "net"] }
inotify = "*"
structopt = "0.3"
log = "0.4"
env_logger = "*"
