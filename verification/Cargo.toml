[package]
name = "metal_compute"
version = "0.1.0"
edition = "2021"
publish = false

[dependencies]
cocoa = { version = "=0.27.0", default-features = false }
objc = "=0.2.7"
objc-foundation = "=0.1.1"
