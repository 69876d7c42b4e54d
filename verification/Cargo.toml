[package]
name = "study_window"
version = "0.1.0"
edition = "2021"
publish = false

[dependencies]
serde = { version = "1", features = ["derive"] }
window-shadows = "0.2"
