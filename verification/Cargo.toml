[package]
name = "oh_bother"
version = "0.1.0"
edition = "2021"
publish = false

[dependencies]
base64 = "0.22"
clap = "4"
prettytable-rs = "0.10"
rpassword = "7"
serde_json = "1"
url = "2"
yaml-rust = "0.4"
