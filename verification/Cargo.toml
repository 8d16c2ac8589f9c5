[package]
name = "vswebp"
version = "0.1.0"
edition = "2021"
publish = false

[dependencies]
image-webp = "*"
vapoursynth4-rs = "*"
vapours = "*"
const-str = "*"
