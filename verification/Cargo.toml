[package]
name = "analytic_filter"
version = "0.1.0"
edition = "2021"
publish = false

[dependencies]
num = "0.4"
rustfft = "6.4"
