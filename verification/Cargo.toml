[package]
name = "winit_event_helper"
version = "0.1.0"
edition = "2021"
publish = false

[dependencies]
ahash = "0.8"
winit = { version = "0.28", default-features = false, features = ["x11"] }
