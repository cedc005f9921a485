[package]
name = "romcomp"
version = "0.1.0"
edition = "2021"
publish = false

[dependencies]
anyhow = "=1.0.104"
clap = { version = "=4.6.7", features = ["derive"] }
crossbeam-channel = "=0.5.17"
ctrlc = "=3.5.2"
duct = "=1.1.2"
filesize = "=0.2.0"
humansize = "=2.1.3"
num_cpus = "=1.17.0"
tempfile = "=3.27.0"
walkdir = "=2.5.0"
zip = "=8.6.0"
