[package]
name = "icicle"
version = "0.1.0"
edition = "2021"
publish = false

[dependencies]
anyhow = "1"
clap = { version = "4", features = ["cargo"] }
flate2 = "1"
tar = "0.4"
ureq = "2"
uuid = { version = "1", features = ["v4"] }
