[package]
name = "wii_organizer"
version = "0.1.0"
edition = "2021"
publish = false

[dependencies]
anyhow = "*"
directories = "*"
positioned-io = "*"
rc-zip-tokio = "*"
reqwest = { version = "*", default-features = false }
tokio = { version = "*", features = ["rt-multi-thread", "fs", "io-util", "macros"] }
