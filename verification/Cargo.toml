[package]
name = "fj_kernel"
version = "0.1.0"
edition = "2021"
publish = false

[dependencies]
fj-math = "*"
fj-interop = "*"
nalgebra = "*"
bytemuck = { version = "*", features = ["derive"] }
