[package]
name = "shifter_api"
version = "0.1.0"
edition = "2021"
publish = false

[dependencies]
urlencoding = "2"
reqwest = { version = "0.11", default-features = false }
