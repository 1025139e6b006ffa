[package]
name = "vulkano"
version = "0.1.0"
edition = "2021"
publish = false

[dependencies]
ash = { version = "0.33", default-features = false }
smallvec = "1.6"
