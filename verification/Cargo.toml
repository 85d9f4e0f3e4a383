[package]
name = "cargo_ros2ws"
version = "0.1.0"
edition = "2021"
publish = false

[dependencies]
toml_edit = "*"
anyhow = "*"
fs2 = "*"
structopt = "*"
thiserror = "*"
