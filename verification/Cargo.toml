[package]
name = "filedialog"
version = "0.1.0"
edition = "2021"
publish = false

[dependencies]
imgui = "*"
imgui-filedialog-sys = "*"
mint = "0.5"
