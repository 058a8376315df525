[package]
name = "crash_helper_client"
version = "0.1.0"
edition = "2021"
publish = false

[dependencies]
nix = { version = "=0.31.3", features = ["fs", "process", "resource", "signal", "socket"] }
rustix = "=1.1.5"

[dev-dependencies]
tempfile = "=3.27.0"
