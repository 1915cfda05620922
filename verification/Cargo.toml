[package]
name = "clobber"
version = "0.1.0"
edition = "2021"
publish = false

[dependencies]
async-std = { version = "=1.6.5", features = ["unstable"] }
chrono = "0.4"
clap = "2"
crossbeam-channel = "0.4"
fern = "0.6"
futures-preview = "0.3.0-alpha.19"
futures-timer = "0.4"
humantime = "1"
log = "0.4"
num_cpus = "1"
romio = "0.3.0-alpha.10"
