[package]
name = "xlogger"
version = "0.1.0"
edition = "2021"
publish = false

[dependencies]
chrono = "0.4"
crossbeam-channel = "0.5"
csv = "1"
eframe = { version = "0.19", default-features = false, features = ["glow", "default_fonts"] }
gilrs = { version = "0.10", features = ["serde-serialize"] }
log = "0.4"
serde = { version = "1", features = ["derive"] }
simplelog = "0.12"
uuid = { version = "1", features = ["v4"] }
