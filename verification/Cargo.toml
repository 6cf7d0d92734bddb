[package]
name = "sasa"
version = "0.1.0"
edition = "2021"
publish = false

[dependencies]
rustc_apfloat = "*"
ringbuf = "0.3"
rustfft = "*"
rand = "0.8"
symphonia = "*"
