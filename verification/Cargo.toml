[package]
name = "titanium-web-extension"
version = "0.1.0"
edition = "2021"
publish = false

[dependencies]
webkit2gtk-webextension = "*"
glib = "*"
