[package]
name = "dodge_core"
version = "0.1.0"
edition = "2021"
publish = false

[dependencies]
bevy_prng = { version = "*", default-features = false, features = ["wyrand"] }
rand_core = "*"
wyrand = "*"
