[package]
name = "account_service"
version = "0.1.0"
edition = "2021"
publish = false

[dependencies]
mongodb = "2"
optfield = "*"
rocket = { version = "0.5", features = ["json"] }
