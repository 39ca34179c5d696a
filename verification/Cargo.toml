[package]
name = "debuginfod_rs"
version = "0.1.0"
edition = "2021"
publish = false

[dependencies]
bytesize = "*"
bzip2 = "*"
cpio = "*"
elf = "*"
env_logger = "*"
flate2 = "*"
hex = "*"
libc = "*"
log = "*"
path-absolutize = "*"
rayon = "*"
rocket = "*"
rpm = { version = "*", default-features = false }
walkdir = "*"
xz2 = "*"
zstd = "*"
