[package]
name = "ni"
version = "0.1.0"
edition = "2021"
publish = false

[dependencies]
serde = "1"
bincode = "2"
bytemuck = "1"
