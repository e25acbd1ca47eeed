[package]
name = "bulletproofs"
version = "0.1.0"
edition = "2021"
publish = false

[dependencies]
snafu = "0.7"
thiserror = "1"
