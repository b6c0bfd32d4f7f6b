[package]
name = "fsbench"
version = "0.1.0"
edition = "2021"
publish = false

[dependencies]
sha2 = "0.10"
hex = "0.4"
rand = "0.8"
reqwest = { version = "0.11", default-features = false, features = ["blocking", "multipart", "rustls-tls"] }
clap = "4"
chrono = "0.4"
