[package]
name = "zing"
version = "0.1.0"
edition = "2021"
publish = false

[dependencies]
anyhow = "1"
cpal = "0.13"
eframe = "0.18"
ringbuf = "0.2"
serde = { version = "1", features = ["derive"] }
serde_json = "1"
