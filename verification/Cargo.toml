[package]
name = "rategraph"
version = "0.1.0"
edition = "2021"
publish = false

[dependencies]
byte-slice-cast = "1"
anyhow = "1"
derive_more = "0.99"
bastion = "0.4"
gstreamer = "0.18"
gstreamer-app = "0.18"
