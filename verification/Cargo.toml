[package]
name = "baseview"
version = "0.1.0"
edition = "2021"
publish = false

[dependencies]
keyboard-types = "*"
x11rb = "*"
arboard = { version = "*", default-features = false }
raw-window-handle = "*"
objc2 = "*"
objc2-foundation = "*"
objc2-app-kit = "*"
core-foundation = "*"
