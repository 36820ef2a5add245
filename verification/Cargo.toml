[package]
name = "pilotrs"
version = "0.1.0"
edition = "2021"
publish = false

[dependencies]
egui_plot = "=0.35.0"
gilrs = "=0.11.2"
nalgebra = "=0.35.0"
num-traits = "=0.2.19"
rand = "=0.10.3"
rand_chacha = "=0.10.0"
rand_distr = "=0.6.0"
three-d = { version = "=0.19.0", features = ["egui-gui"] }
