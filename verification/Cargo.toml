[package]
name = "gpu_image"
version = "0.1.0"
edition = "2021"
publish = false

[dependencies]
bytemuck = "=1.25.2"
derive_more = { version = "=2.1.1", features = ["from"] }
flume = "=0.11.1"
iced = { version = "=0.14.0", default-features = false, features = ["wgpu", "thread-pool", "x11"] }
image = { version = "=0.25.10", default-features = false, features = ["jpeg"] }
rawloader = "=0.37.2"
tracing = "=0.1.44"
tracing-subscriber = "=0.3.23"
wgpu = "=27.0.1"
