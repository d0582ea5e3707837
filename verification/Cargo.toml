[package]
name = "compbench"
version = "0.1.0"
edition = "2021"
publish = false

[dependencies]
flate2 = "*"
brotli = "*"
zstd = { version = "*", features = ["zstdmt"] }
gzp = { version = "*", default-features = false, features = ["deflate_rust"] }
plotters = "*"
sysinfo = "*"
