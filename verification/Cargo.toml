[package]
name = "alt_tab"
version = "0.1.0"
edition = "2021"
publish = false

[dependencies]
dirs = "=7.0.0"
image = { version = "=0.25.10", default-features = false, features = ["png"] }
objc2 = "*"
objc2-app-kit = "*"
objc2-foundation = "*"
open = "=5.4.5"
serde = { version = "=1.0.229", features = ["derive"] }
serde_json = "=1.0.154"
smallvec = "=1.16.4"
x11rb = "=0.14.0"
