[package]
name = "minidump"
version = "0.1.0"
edition = "2021"
publish = false

[dependencies]
goblin = "*"
breakpad = "*"
serde = { version = "*", features = ["derive"] }
