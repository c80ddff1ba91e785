[package]
name = "winaudio"
version = "0.1.0"
edition = "2021"
publish = false

[dependencies]
widestring = "1"
winapi = { version = "0.3", features = ["mmeapi", "mmsystem", "mmreg", "winnt"] }
