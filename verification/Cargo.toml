[package]
name = "pre_commit"
version = "0.1.0"
edition = "2021"
publish = false

[dependencies]
anyhow = "*"
fs-err = "*"
owo-colors = "*"
tracing = "*"
which = "*"
