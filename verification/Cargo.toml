[package]
name = "fluent_http"
version = "0.1.0"
edition = "2021"
publish = false

[dependencies]
url = "*"
form_urlencoded = "*"
hyper = { version = "*", features = ["client", "http1"] }
hyper-util = { version = "*", features = ["client", "client-legacy", "http1", "tokio"] }
http-body-util = "*"
bytes = "*"
http = "*"
tokio = { version = "*", features = ["rt", "net"] }
