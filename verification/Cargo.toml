[package]
name = "ptouch"
version = "0.1.0"
edition = "2021"
publish = false

[dependencies]
futures-lite = "2"
nusb = "0.1"
reqwest = { version = "0.12", features = ["blocking", "json"] }
serde = { version = "1", features = ["derive"] }
