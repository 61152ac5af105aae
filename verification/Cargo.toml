[package]
name = "render_core"
version = "0.1.0"
edition = "2021"
publish = false

[dependencies]
cgmath = "=0.18.0"
bytemuck = { version = "=1.25.2", features = ["derive"] }
image = { version = "=0.24.9", default-features = false, features = ["png", "jpeg", "tga"] }
tobj = { version = "=4.0.5", features = ["async"] }
futures = { version = "=0.3.34", default-features = false, features = ["executor"] }
