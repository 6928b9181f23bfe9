[package]
name = "sim_logic"
version = "0.1.0"
edition = "2021"
publish = false

[dependencies]
sim-engine = { version = "=0.4.2", features = ["fonts"] }
winit = "=0.30.13"
png = "=0.18.1"
pollster = "=0.4.0"
