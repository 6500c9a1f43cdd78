[package]
name = "wayvern"
version = "0.1.0"
edition = "2021"
publish = false

[dependencies]
input-linux = "*"
smithay = "*"
smithay-drm-extras = "*"
log = "*"
tracing = "*"
tracing-subscriber = "*"
thiserror = "*"
lazy_static = "*"
profiling = "*"
fps_ticker = "*"
