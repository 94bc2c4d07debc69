[package]
name = "hmc"
version = "0.1.0"
edition = "2021"
publish = false

[dependencies]
rand = "=0.10.3"
rand_distr = "=0.6.0"
clap = { version = "=4.6.7", features = ["derive"] }
kuva = { version = "=0.6.0", features = ["pdf"] }
eframe = { version = "=0.37.0", default-features = false, features = ["default_fonts", "glow", "x11"] }
egui_plot = "=0.38.0"
