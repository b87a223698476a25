[package]
name = "botz"
version = "0.1.0"
edition = "2021"
publish = false

[dependencies]
eframe = "0.15"
egui = "0.15"
epi = "0.15"
