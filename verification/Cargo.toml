[package]
name = "eye_in_desk"
version = "0.1.0"
edition = "2021"
publish = false

[dependencies]
tokio = { version = "1", features = ["full"] }
nalgebra = "0.32"
libfranka-rs = "*"
tonic = "0.9"
prost = "0.11"
axum = { version = "0.6", features = ["ws"] }
futures = "0.3"
serde = { version = "1", features = ["derive"] }
serde_json = "1"
tower-http = { version = "0.4", features = ["fs"] }
anyhow = "1"
opencv = "*"
nokhwa = "0.10"
