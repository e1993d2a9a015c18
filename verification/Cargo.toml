[package]
name = "glb_export"
version = "0.1.0"
edition = "2021"
publish = false

[dependencies]
rustc_apfloat = "*"

[dev-dependencies]
gltf = { version = "*", default-features = false }
