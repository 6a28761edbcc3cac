[package]
name = "target_data_layout"
version = "0.1.0"
edition = "2021"
publish = false

[dependencies]
anyhow = "1"
rustc-hash = "1.1.0"
