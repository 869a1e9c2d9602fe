[package]
name = "spider_ik"
version = "0.1.0"
edition = "2021"
publish = false

[dependencies]
bevy = { version = "=0.16.1", default-features = false, features = ["std", "bevy_pbr", "bevy_gizmos", "bevy_window"] }
