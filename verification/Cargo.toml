[package]
name = "voxel"
version = "0.1.0"
edition = "2021"
publish = false

[dependencies]
bytemuck = "*"
glam = "*"
noise = "*"
parking_lot = "*"
rayon = "*"
