[package]
name = "camp_misty"
version = "0.1.0"
edition = "2021"
publish = false

[dependencies]
byteorder = "1"
rand = "0.7"
serde = { version = "1", features = ["derive"] }
serde_json = "1"
