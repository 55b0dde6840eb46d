[package]
name = "leviathan_lab"
version = "0.1.0"
edition = "2021"
publish = false

[dependencies]
bevy = { version = "=0.18.1", default-features = false }
bevy_egui = { version = "=0.39.1", default-features = false }
parry3d = "=0.28.0"
