[package]
name = "led_matrix"
version = "0.1.0"
edition = "2021"
publish = false

[dependencies]
base64 = "*"
image = "*"
serde_json = "*"
