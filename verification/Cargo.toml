[package]
name = "timba"
version = "0.1.0"
edition = "2021"
publish = false

[dependencies]
image = "0.24"
eframe = "0.19"
ctrlc = "3"
