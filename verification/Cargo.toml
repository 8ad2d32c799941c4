[package]
name = "egui_sdl2_platform"
version = "0.1.0"
edition = "2021"
publish = false

[dependencies]
arboard = "*"
open = "*"
egui = "*"
epaint = "*"
sdl2 = "*"
