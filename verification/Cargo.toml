[package]
name = "simplehttp"
version = "0.1.0"
edition = "2021"
publish = false

[dependencies]
thiserror = "1"
log = "0.4"
bytes = "1"
http = "0.2"
reqwest = { version = "0.11", default-features = false, features = ["blocking"] }
fastly = "*"
spin-sdk = "2.2.0"
embedded-svc = "*"
esp-idf-svc = "*"
esp-idf-sys = "*"
