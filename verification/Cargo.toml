[package]
name = "vidify"
version = "0.1.0"
edition = "2021"
publish = false

[dependencies]
dirs = "*"
log = "*"
simplelog = "*"
webbrowser = "*"
ureq = "*"
serde_json = "*"
