[package]
name = "ndscore"
version = "0.1.0"
edition = "2021"
publish = false

[dependencies]
num-integer = "=0.1.47"
bytemuck = "=1.25.2"
priority-queue = "1"
