[package]
name = "sky_atmosphere"
version = "0.1.0"
edition = "2021"
publish = false

[dependencies]
bevy_app = "0.15"
bevy_core = "0.15"
bevy_ecs = "0.15"
bevy_reflect = "0.15"
bevy_tasks = "0.15"
bevy_transform = "0.15"
bevy_utils = "0.15"
crossbeam-channel = "0.5"
glam = "0.29"
spin_sleep = "1"
