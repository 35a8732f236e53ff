[package]
name = "apod_desktop"
version = "0.1.0"
edition = "2021"
publish = false

[dependencies]
anyhow = "*"
little_exif = "*"
pico-args = "*"
serde_json = "*"
ureq = "*"
xdg = "*"
