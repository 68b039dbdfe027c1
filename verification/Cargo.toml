[package]
name = "graphite-editor"
version = "0.1.0"
edition = "2021"
publish = false

[dependencies]
glam = "0.22"
remain = "0.2"
serde = { version = "1.0", features = ["derive"] }
