[package]
name = "acuneus"
version = "0.1.0"
edition = "2021"
publish = false

[dependencies]
rosc = "*"
ply-rs-bw = "*"
bytemuck = { version = "*", features = ["derive"] }
log = "*"
