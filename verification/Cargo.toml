[package]
name = "vrm_anim"
version = "0.1.0"
edition = "2021"
publish = false

[dependencies]
gltf = "1"
