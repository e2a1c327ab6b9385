[package]
name = "whisper"
version = "0.1.0"
edition = "2021"
publish = false

[dependencies]
core-foundation = "0.10"
core-graphics = "0.24"
cpal = "0.15"
log = "0.4"
objc2 = "0.6"
objc2-app-kit = "0.3"
objc2-foundation = "0.3"
simplelog = "0.12"
whisper-rs = "0.15"
