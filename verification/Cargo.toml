[package]
name = "rt_trace"
version = "0.1.0"
edition = "2021"
publish = false

[dependencies]
prost = "*"
parking_lot = "*"
once_cell = "*"
procfs = "*"
framehop = "*"
wholesym = "*"
