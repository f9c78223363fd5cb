[package]
name = "bevy_scrollbar"
version = "0.1.0"
edition = "2021"
publish = false

[dependencies]
bevy = { version = "0.17", default-features = false, features = ["std", "bevy_ui", "bevy_picking", "bevy_log"] }
