[package]
name = "retrocalc"
version = "0.1.0"
edition = "2021"
publish = false

[dependencies]
saudade = "*"
arboard = { version = "*", default-features = false }
