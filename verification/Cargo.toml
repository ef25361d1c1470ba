[package]
name = "marker_hmc"
version = "0.1.0"
edition = "2021"

[dependencies]
ndarray = "=0.15.6"
rand = "=0.8.8"
