[package]
name = "mopt_cmplog"
version = "0.1.0"
edition = "2021"
publish = false

[dependencies]
libafl = "=0.14.0"
libafl_bolts = "=0.14.0"
libafl_cc = "=0.14.0"
libafl_targets = { version = "=0.14.0", features = ["sancov_pcguard_hitcounts", "sancov_cmplog", "libfuzzer"] }
clap = "4"
mimalloc = "*"
nix = { version = "0.29", features = ["fs"] }
serde = { version = "1", features = ["derive"] }
