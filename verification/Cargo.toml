[package]
name = "sched_clock"
version = "0.1.0"
edition = "2021"
publish = false

[dependencies]
nix = { version = "*", features = ["sched", "time"] }
syscalls = "*"
