[package]
name = "wgpu_framework"
version = "0.1.0"
edition = "2021"
publish = false

[dependencies]
instant = "0.1"
parking_lot = "0.12"
pollster = "0.3"
