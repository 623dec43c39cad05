[package]
name = "fluid_sim"
version = "0.1.0"
edition = "2021"
publish = false

[dependencies]
crossbeam-channel = "=0.5.17"
rand = "=0.8.8"
bytemuck = "=1.25.2"
bevy = { version = "=0.13.2", default-features = false }
