[package]
name = "planar_motion"
version = "0.1.0"
edition = "2021"
publish = false

[dependencies]
bevy = { version = "0.8", default-features = false }
bevy_rapier2d = { version = "0.16", default-features = false, features = ["dim2"] }
