[package]
name = "skulpin_renderer"
version = "0.1.0"
edition = "2021"
publish = false

[dependencies]
ash = "=0.37.3"
log = "0.4"
rafx = { version = "=0.0.16", features = ["rafx-vulkan", "framework"] }
skia-safe = { version = "=0.153.3", features = ["ganesh", "vulkan"] }
