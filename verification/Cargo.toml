[package]
name = "remote_state_view"
version = "0.1.0"
edition = "2021"
publish = false

[dependencies]
bcs = "0.1.6"
crossbeam-channel = "0.5"
num_cpus = "1"
rayon = "1"
