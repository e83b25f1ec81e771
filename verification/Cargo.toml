[package]
name = "imginfo"
version = "0.1.0"
edition = "2021"
publish = false

[dependencies]
kamadak-exif = "*"
image = "*"
inquire = "*"
prettytable-rs = "*"
