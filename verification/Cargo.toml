[package]
name = "sprite_animation"
version = "0.1.0"
edition = "2021"
publish = false

[dependencies]
bevy = { version = "0.12", default-features = false, features = ["bevy_asset"] }
derive_more = "0.99"
serde = { version = "1", features = ["derive"] }
thiserror = "1"
