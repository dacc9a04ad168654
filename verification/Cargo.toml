[package]
name = "slamprust"
version = "0.1.0"
edition = "2021"
publish = false

[dependencies]
mpd = "=0.1.0"
uuid = { version = "=1.29.0", features = ["v4"] }
time = { version = "=0.3.55", features = ["formatting"] }
async-channel = "=2.5.0"
futures = "=0.3.34"
