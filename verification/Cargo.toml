[package]
name = "kaspa_ng_core"
version = "0.1.0"
edition = "2021"
publish = false

[dependencies]
egui = "0.27"
