[package]
name = "stardust_openxr"
version = "0.1.0"
edition = "2021"
publish = false

[dependencies]
anyhow = "1"
bytemuck = "=1.25.2"
lazy_static = "1"
nanoid = "=0.4.0"
openxr-sys = "=0.14.0"
parking_lot = "0.12"
rustc-hash = "1"
serde = { version = "1", features = ["derive"] }
slotmap = "=1.1.1"
stardust-xr = "=0.14.1"
tokio = { version = "1", features = ["rt", "time", "net", "macros"] }
