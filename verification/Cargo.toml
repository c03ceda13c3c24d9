[package]
name = "graphblas_sparse_linear_algebra"
version = "0.1.0"
edition = "2021"
publish = false

[dev-dependencies]
rayon = "*"
