[package]
name = "cms_core"
version = "0.1.0"
edition = "2021"
publish = false

[dependencies]
time = "0.3"
serde_json = "1"
