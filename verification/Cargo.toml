[package]
name = "igd"
version = "0.1.0"
edition = "2021"
publish = false

[dependencies]
bytes = "1"
http = "1"
http-body-util = "0.1"
hyper = { version = "1", features = ["client", "http1"] }
hyper-util = { version = "0.1", features = ["tokio"] }
rand = "0.9"
reqwest = { version = "0.12", default-features = false }
tokio = { version = "1", features = ["net", "time", "rt", "macros"] }
url = "2"
xmltree = "0.10"
