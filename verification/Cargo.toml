[package]
name = "frame_core"
version = "0.1.0"
edition = "2021"
publish = false

[dependencies]
gba = { version = "=0.15.0", default-features = false }
voladdress = "=1.4.0"
tiled = { version = "=0.10.3", default-features = false }
proc-macro2 = "=1.0.107"
quote = "=1.0.47"
syn = "=2.0.119"
