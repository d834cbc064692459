[package]
name = "godot_rust_script"
version = "0.1.0"
edition = "2021"
publish = false

[dependencies]
godot = "=0.5.5"
godot-cell = "=0.5.5"
thiserror = "2"
once_cell = "1"
const-str = "*"
