[package]
name = "stable_identifier"
version = "0.1.0"
edition = "2021"
publish = false

[dependencies]
nanoid = "*"
serde = { version = "*", features = ["derive"] }
bevy = { version = "*", default-features = false }
bevy-inspector-egui = { version = "*", default-features = false }
