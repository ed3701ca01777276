[package]
name = "token_result"
version = "0.1.0"
edition = "2021"
publish = false

[dependencies]
ethabi = "*"
futures = "*"

[dev-dependencies]
ethereum-types = "*"
