[package]
name = "motion_playback"
version = "0.1.0"
edition = "2021"
publish = false

[dependencies]
color-eyre = "=0.6.5"
nalgebra = "=0.32.6"
ordered-float = "=4.6.0"
rand = "=0.8.8"
serde = { version = "=1.0.229", features = ["derive"] }
serde_json = "=1.0.154"
splines = "=5.0.0"
