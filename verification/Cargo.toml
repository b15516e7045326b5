[package]
name = "hex_viewer"
version = "0.1.0"
edition = "2021"
publish = false

[dependencies]
encoding_rs = "*"
iced_core = "*"
iced_widget = "*"
