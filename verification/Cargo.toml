[package]
name = "world_athletics_points_calulator"
version = "0.1.0"
edition = "2021"
publish = false

[dependencies]
log = "0.4"
once_cell = "1"
serde = { version = "1", features = ["derive"] }
serde_json = "1"
