[package]
name = "fuso"
version = "0.1.0"
edition = "2021"
publish = false

[dependencies]
async-channel = "1"
async-mutex = "1"
async-trait = "0.1"
log = "0.4"
pin-project = "1"
tokio = { version = "1", default-features = false, features = ["rt", "net", "time", "io-util"] }
