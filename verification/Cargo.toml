[package]
name = "embedded_nal_async_std"
version = "0.1.0"
edition = "2021"
publish = false

[dependencies]
embedded-nal-async = "*"
async-std = "*"
futures = "*"
