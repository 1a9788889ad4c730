[package]
name = "ax_bridge"
version = "0.1.0"
edition = "2021"
publish = false

[dependencies]
anyhow = "=1.0.104"
glyphon = "=0.12.0"
libc = "=0.2.191"
objc2-application-services = { version = "=0.3.1", default-features = false, features = ["std", "libc", "AXError", "AXUIElement", "AXValue", "HIServices"] }
objc2-core-foundation = { version = "=0.3.2", default-features = false, features = ["std", "CFArray", "CFBase", "CFCGTypes", "CFNumber", "CFString"] }
pollster = "=1.0.1"
wgpu = "=30.0.1"
winit = "=0.30.13"
