[package]
name = "openrgb_presets"
version = "0.1.0"
edition = "2021"
publish = false

[dependencies]
openrgb2 = "*"
evdev = { version = "*", features = ["tokio"] }
tokio = { version = "1", features = ["macros", "rt-multi-thread", "signal", "time"] }
