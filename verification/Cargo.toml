[package]
name = "milkywm"
version = "0.1.0"
edition = "2021"
publish = false

[dependencies]
anyhow = "1"
bytemuck = "1"
calloop = "*"
glam = "*"
glow = "*"
inotify = "*"
libc = "0.2"
serde = { version = "1", features = ["derive"] }
serde_json = "1"
smithay = { version = "*", features = ["renderer_glow"] }
toml = "*"
tracing = "0.1"
tracing-subscriber = { version = "0.3", features = ["env-filter"] }
