[package]
name = "hltas_editor"
version = "0.1.0"
edition = "2021"
publish = false

[dependencies]
hltas = "*"
serde = { version = "1", features = ["derive"] }
serde_json = "1"
home = "0.5"
locale_config = "0.3"
fluent-templates = "0.6"
native-dialog = "0.6"
imgui = "0.8"
winit = "0.25"
imgui-winit-support = "0.8"
imgui-glium-renderer = "0.8"
glium = "0.30"
