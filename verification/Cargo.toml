[package]
name = "field_raster"
version = "0.1.0"
edition = "2021"
publish = false

[dependencies]
clap = { version = "4", features = ["derive"] }
image = { version = "0.24", default-features = false, features = ["png"] }
imageproc = { version = "0.23", default-features = false }
rusttype = "0.9"
serde = { version = "1", features = ["derive"] }
toml = "0.8"
