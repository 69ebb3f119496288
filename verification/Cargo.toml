[package]
name = "host_providers"
version = "0.1.0"
edition = "2021"
publish = false

[dependencies]
tokio = { version = "1", default-features = false, features = ["sync"] }
translit = "*"
tracing = "0.1"
libc = "0.2"
core-foundation = "*"
core-foundation-sys = "*"
coreaudio-sys = "*"
objc2 = "*"
objc2-foundation = "*"
objc2-media-player = "*"
