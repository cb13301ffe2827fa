[package]
name = "openfire"
version = "0.1.0"
edition = "2021"
publish = false

[dependencies]
bevy = { version = "=0.15.3", default-features = false, features = ["bevy_core_pipeline", "bevy_pbr", "bevy_render", "bevy_text", "bevy_ui", "bevy_window", "default_font"] }
serde = { version = "=1.0.229", features = ["derive"] }
serde_json = "=1.0.154"
