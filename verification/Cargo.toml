[package]
name = "screencast"
version = "0.1.0"
edition = "2021"
publish = false

[dependencies]
async-channel = "=2.5.0"
drm = "=0.15.0"
gbm = "=0.18.0"
gl = "=0.14.0"
gl_loader = "=0.1.2"
khronos-egl = { version = "=6.0.0", features = ["static", "no-pkg-config"] }
pipewire = "=0.10.1"
