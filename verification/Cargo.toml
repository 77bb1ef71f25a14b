[package]
name = "render_core"
version = "0.1.0"
edition = "2021"
publish = false

[dependencies]
anyhow = "=1.0.104"
bytemuck = { version = "=1.25.2", features = ["derive"] }
futures = "=0.3.34"
gif = "=0.12.0"
image = "=0.24.9"
lazy_static = "=1.5.1"
nannou = "=0.16.0"
rayon = "=1.12.0"
tobj = "=2.0.4"
