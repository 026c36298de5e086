[package]
name = "cube_sphere"
version = "0.1.0"
edition = "2021"
publish = false

[dependencies]
bevy = { version = "=0.17.3", default-features = false, features = ["std", "async_executor", "multi_threaded", "bevy_asset", "bevy_log", "bevy_state", "bevy_render", "bevy_core_pipeline", "bevy_pbr", "bevy_picking", "bevy_mesh_picking_backend", "bevy_dev_tools", "png"] }
