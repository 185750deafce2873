[package]
name = "linedisplayrs"
version = "0.1.0"
edition = "2021"
publish = false

[dependencies]
rusb = "*"
usb-ids = "*"
clap = { version = "*", features = ["derive"] }
anyhow = "*"
