[package]
name = "schminput"
version = "0.1.0"
edition = "2021"
publish = false

[dependencies]
atomicow = "1"
bevy = { version = "0.17", default-features = false, features = ["std", "bevy_log"] }
dirs = "6"
