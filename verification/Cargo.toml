[package]
name = "tesutil"
version = "0.1.0"
edition = "2021"
publish = false

[dependencies]
anyhow = "=1.0.104"
clap = "=3.2.25"
rust-ini = "*"
thiserror = "=1.0.69"
