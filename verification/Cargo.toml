[package]
name = "pittore"
version = "0.1.0"
edition = "2021"
publish = false

[dependencies]
dashmap = "5"
euclid = "0.22"
thiserror = "1"
winit = "0.28"
