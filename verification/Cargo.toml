[package]
name = "blobgrid"
version = "0.1.0"
edition = "2021"
publish = false

[dependencies]
rand = "*"
console = "*"
gemini-engine = "*"
