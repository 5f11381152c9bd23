[package]
name = "two_captcha"
version = "0.1.0"
edition = "2021"
publish = false

[dependencies]
base64 = "0.13"
reqwest = { version = "0.12", default-features = false, features = ["multipart", "stream"] }
tokio = { version = "1", features = ["fs", "time"] }
tokio-util = { version = "0.7", features = ["codec"] }
async-trait = "0.1"
serde = "1"
serde_derive = "1"
serde_json = "1"
log = "0.4"
structopt = "0.3"
