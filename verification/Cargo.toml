[package]
name = "letsbayes"
version = "0.1.0"
edition = "2021"
publish = false

[dependencies]
emcee = "*"
statrs = "*"
serde = { version = "1", features = ["derive"] }
