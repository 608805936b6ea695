[package]
name = "kyber_boundary"
version = "0.1.0"
edition = "2021"
publish = false

[dependencies]
pqc_kyber = "0.7"
rand = "0.8"
