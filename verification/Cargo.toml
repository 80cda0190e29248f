[package]
name = "srgb"
version = "0.3.4"
edition = "2021"

[dev-dependencies]
approx = "*"
float_next_after = "*"
kahan = "*"
