[package]
name = "schedule_runner"
version = "0.1.0"
edition = "2021"
publish = false

[dependencies]
bevy_app = "0.10.1"
bevy_ecs = "0.10.1"
bevy_utils = "0.10.1"
bevy_core = "0.10.1"
bevy_log = "0.10.1"
bevy_time = "0.10.1"
bevy_transform = "0.10.1"
bevy_hierarchy = "0.10.1"
bevy_diagnostic = "0.10.1"
bevy_input = "0.10.1"
bevy_window = "0.10.1"
wasm-bindgen = "0.2"
web-sys = { version = "0.3", features = ["Window"] }
