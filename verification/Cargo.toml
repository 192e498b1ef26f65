[package]
name = "scuttlebutt"
version = "0.1.0"
edition = "2021"
publish = false

[dependencies]
serde_json = "1"
hyper = "0.10"
log = "0.4"
