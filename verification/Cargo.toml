[package]
name = "guest_harness"
version = "0.1.0"
edition = "2021"
publish = false

[dependencies]
clap = { version = "=4.6.7", features = ["derive"] }
env_logger = "=0.11.11"
libafl = "=0.15.0"
libafl_bolts = "=0.15.0"
libafl_qemu = { version = "=0.15.0", features = ["usermode", "x86_64"] }
libafl_targets = "=0.15.0"
log = "=0.4.34"
nix = { version = "=0.29.0", features = ["fs"] }
serde = { version = "1", features = ["derive"] }
typed-builder = "=0.20.1"

[dev-dependencies]
syscall-numbers = "4"
