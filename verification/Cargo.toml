[package]
name = "sky_gradient"
version = "0.1.0"
edition = "2021"
publish = false

[dependencies]
bevy = { version = "0.17", default-features = false, features = ["bevy_asset", "bevy_color", "bevy_core_pipeline", "bevy_pbr", "bevy_render", "bevy_window"] }
serde = { version = "1", features = ["derive"] }
thiserror = "2"
tracing = "0.1"
