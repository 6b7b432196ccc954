[package]
name = "erika"
version = "0.1.0"
edition = "2021"
publish = false

[dependencies]
bytemuck = { version = "=1.25.2", features = ["derive"] }
coreaudio-rs = "*"
libc = "=0.2.191"
pollster = "=0.4.0"
soundtouch = "=0.5.4"
thiserror = "=2.0.21"
wgpu = "=29.0.4"
