[package]
name = "iobench"
version = "0.1.0"
edition = "2021"
publish = false

[dependencies]
anyhow = "1"
clap = { version = "4", features = ["derive"] }
crossbeam = "0.8"
hdrhistogram = "7"
indicatif = "0.17"
io-uring = "*"
libc = "0.2"
rand = "0.8"
rand_pcg = "0.3"
slab = "0.4"
