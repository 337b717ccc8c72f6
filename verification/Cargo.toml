[package]
name = "icelake"
version = "0.1.0"
edition = "2021"
publish = false

[dependencies]
regex = "1"
url = "2"
uuid = { version = "1", features = ["v4"] }
opendal = "0.39"
futures = "0.3"
log = "0.4"
