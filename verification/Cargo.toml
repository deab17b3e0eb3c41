[package]
name = "egui_sdl2_event"
version = "0.1.0"
edition = "2021"
publish = false

[dependencies]
egui = "*"
sdl2 = "*"
