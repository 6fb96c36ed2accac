[package]
name = "overheat"
version = "0.1.0"
edition = "2021"
publish = false

[dependencies]
avian3d = { version = "0.1", default-features = false, features = ["3d", "f32", "parry-f32"] }
bevy = { version = "=0.14.2", default-features = false }
clap = { version = "=4.6.7", features = ["derive"] }
serde = { version = "=1.0.229", features = ["derive"] }
