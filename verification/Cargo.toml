[package]
name = "credentia"
version = "0.1.0"
edition = "2021"
publish = false

[dependencies]
anchor-lang = { version = "0.31", features = ["init-if-needed"] }
anchor-spl = { version = "0.31", features = ["metadata"] }
