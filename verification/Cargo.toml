[package]
name = "jetty_app"
version = "0.1.0"
edition = "2021"
publish = false

[dependencies]
dirs = "*"
global-hotkey = "*"
notify = "*"
sysinfo = "*"
toml = "*"
wgpu = "*"
winit = "0.30"
