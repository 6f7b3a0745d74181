[package]
name = "physics_sandbox"
version = "0.1.0"
edition = "2021"
publish = false

[dependencies]
avian3d = { version = "=0.5.0", default-features = false, features = ["3d", "f32", "parry-f32", "debug-plugin", "xpbd_joints", "parallel", "bevy_picking"] }
bevy = { version = "=0.18.1", default-features = false, features = ["std", "bevy_log", "bevy_ui", "bevy_pbr"] }
serde = { version = "=1.0.229", features = ["derive"] }
