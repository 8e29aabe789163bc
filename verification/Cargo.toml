[package]
name = "traj_propagate"
version = "0.1.0"
edition = "2021"
publish = false

[dependencies]
clap = { version = "=3.2.25", features = ["derive"] }
ndarray = "=0.17.2"
rust-spice = { version = "=1.0.1", default-features = false, features = ["unlinked"] }
