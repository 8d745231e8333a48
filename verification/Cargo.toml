[package]
name = "lastfm_proxy_worker"
version = "0.1.0"
edition = "2021"
publish = false

[dependencies]
md5 = "*"
sha2 = "*"
hex = "*"
serde_json = "*"
url = "*"
reqwest = { version = "*", default-features = false, features = ["blocking"] }
