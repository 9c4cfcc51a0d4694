[package]
name = "catnip"
version = "0.1.0"
edition = "2021"
publish = false

[dependencies]
futures = "=0.3.34"
hashbrown = "=0.9.1"
rand = "=0.8.8"
