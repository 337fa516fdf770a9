[package]
name = "axum_msgpack"
version = "0.1.0"
edition = "2021"
publish = false

[dependencies]
axum = "0.5"
hyper = "0.14"
mime = "0.3"
rmp-serde = "1"
serde = "1"
