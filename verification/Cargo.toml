[package]
name = "voxel_view"
version = "0.1.0"
edition = "2021"
publish = false

[dependencies]
bevy = { version = "=0.16.1", default-features = false, features = ["std", "async_executor", "bevy_asset", "bevy_image", "bevy_window", "bevy_log", "bevy_render", "bevy_core_pipeline", "bevy_sprite", "bevy_winit", "x11", "tonemapping_luts"] }
