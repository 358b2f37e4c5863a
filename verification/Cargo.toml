[package]
name = "tsuki"
version = "0.1.0"
edition = "2021"
publish = false

[dependencies]
smithay = { version = "=0.7.0", default-features = false, features = [
    "backend_drm",
    "backend_gbm",
    "backend_egl",
    "backend_libinput",
    "backend_session_libseat",
    "backend_udev",
    "renderer_gl",
    "desktop",
    "wayland_frontend",
] }
smithay-drm-extras = "=0.1.0"
