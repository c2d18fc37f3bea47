[package]
name = "vr_lab"
version = "0.1.0"
edition = "2021"
publish = false

[dependencies]
clap = "=2.34.0"
gfx = "=0.18.3"
gfx_device_gl = "=0.16.2"
gfx_window_glutin = "=0.31.0"
glutin = "=0.21.2"
log = "=0.3.9"
nalgebra = { version = "=0.29.0", features = ["serde-serialize"] }
ncollide3d = "=0.32.0"
nphysics3d = "=0.24.0"
serde = { version = "=1.0.229", features = ["derive"] }
serde_json = "=1.0.154"
simplelog = "=0.4.4"
