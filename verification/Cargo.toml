[package]
name = "stabman"
version = "0.1.0"
edition = "2021"
publish = false

[dependencies]
climer = "0.3"
ron = "0.4"
serde = { version = "1", features = ["derive"] }
