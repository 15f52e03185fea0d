[package]
name = "mem_widget"
version = "0.1.0"
edition = "2021"
publish = false

[dependencies]
num-rational = "0.2"
psutil = "1"
size = "0.1"
tui = { version = "0.8", default-features = false }
