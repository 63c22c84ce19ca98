[package]
name = "paracosm_gpu"
version = "0.1.0"
edition = "2021"
publish = false

[dependencies]
ash = "0.38"
ash-window = "0.13"
raw-window-handle = "0.6"
vk-mem = "0.4"
anyhow = "1"
bevy_ecs = "0.16"
