[package]
name = "laminar_transport"
version = "0.1.0"
edition = "2021"
publish = false

[dependencies]
bytes = "=1.12.1"
laminar = "=0.5.0"
bevy = { version = "=0.5.0", default-features = false }
ndk-macro = "=0.2.0"
