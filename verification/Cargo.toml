[package]
name = "xr_frame_loop"
version = "0.1.0"
edition = "2021"
publish = false

[dependencies]
ash = "*"
openxr = { version = "*", features = ["loaded"] }
tracing = "*"
tracing-subscriber = { version = "*", features = ["env-filter"] }
vulkano = "*"
