[package]
name = "kvbench"
version = "0.1.0"
edition = "2021"
publish = false

[dependencies]
rand = "0.9"
rand_distr = "0.5"
hdrhistogram = { version = "7", default-features = false }
thousands = "0.2"
anyhow = "1"
clap = { version = "4", features = ["derive"] }
tempfile = "3"
redb = "2"
sled = "0.34"
