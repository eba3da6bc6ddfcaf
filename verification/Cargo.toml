[package]
name = "mesh_node"
version = "0.1.0"
edition = "2021"
publish = false

[dependencies]
rg3d-core = "=0.10.0"
