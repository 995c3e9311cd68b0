[package]
name = "mmap_bench"
version = "0.1.0"
edition = "2021"
publish = false

[dependencies]
cache-size = "*"
libc = "0.2"
