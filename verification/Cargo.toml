[package]
name = "brwm"
version = "0.1.0"
edition = "2021"
publish = false

[dependencies]
shlex = "1"
x11rb = { version = "*", features = ["xinerama"] }
serde = "1"
serde_derive = "1"
serde_json = "1"
dirs-next = "2"
