[package]
name = "asset_handles"
version = "0.1.0"
edition = "2021"
publish = false

[dependencies]
bevy_ecs = "=0.1.3"
bevy_property = "=0.1.3"
crossbeam-channel = "=0.5.17"
glam = "=0.8.7"
legion = "0.2"
serde = { version = "=1.0.229", features = ["derive"] }
thiserror = "=1.0.69"
type-uuid = "=0.1.2"
zerocopy = "=0.3.2"
