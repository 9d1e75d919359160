[package]
name = "wlrscreencopy"
version = "0.1.0"
edition = "2021"
publish = false

[dependencies]
drm-fourcc = "*"
memfd = "*"
nix = { version = "*", features = ["fs"] }
wayland-client = "*"
wayland-protocols = { version = "*", features = ["client", "unstable"] }
wayland-protocols-wlr = { version = "*", features = ["client"] }
