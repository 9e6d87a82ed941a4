[package]
name = "up_down"
version = "0.1.0"
edition = "2021"
publish = false

[dependencies]
anyhow = "*"
directories = "*"
open = "*"
ping = "0.4"
trayicon = { version = "0.1", features = ["winit"] }
winit = "0.25"
