[package]
name = "higher_dimension_playground"
version = "0.1.0"
edition = "2021"
publish = false

[dependencies]
vulkano = "=0.35.2"
egui = "=0.37.0"
