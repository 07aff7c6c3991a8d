[package]
name = "echo-core"
version = "0.1.0"
edition = "2021"
publish = false

[dependencies]
bytes = "1"
futures-core = "0.3"
futures-util = "0.3"
http = "1"
http-body = "1"
hyper = { version = "1", features = ["http1", "server"] }
matchit = "0.7"
mime = "0.3"
pin-project-lite = "0.2"
serde = "1"
serde_urlencoded = "0.7"
sync_wrapper = "1"
tokio = { version = "1", features = ["net", "macros", "rt", "time"] }
