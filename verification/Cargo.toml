[package]
name = "rectray"
version = "0.1.0"
edition = "2021"
publish = false

[dependencies]
bevy = { version = "0.13", default-features = false }
interpolation = "0.3"
triomphe = "0.1"
