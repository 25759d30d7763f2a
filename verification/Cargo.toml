[package]
name = "isomagic"
version = "0.1.0"
edition = "2021"
publish = false

[dependencies]
bevy = { version = "=0.17.3", default-features = false, features = ["std", "bevy_state", "bevy_ui", "bevy_text", "bevy_pbr", "bevy_picking", "bevy_mesh_picking_backend", "bevy_input_focus", "bevy_window", "bevy_camera", "bevy_light", "bevy_mesh", "bevy_asset", "bevy_color"] }
serde = { version = "=1.0.229", features = ["derive"] }
