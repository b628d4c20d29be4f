[package]
name = "dragon_world"
version = "0.1.0"
edition = "2021"
publish = false

[dependencies]
noise = "0.9"
rodio = { version = "0.20", default-features = false, features = ["symphonia-aac", "symphonia-isomp4"] }
symphonia = { version = "0.5", features = ["aac", "isomp4", "mp3"] }
