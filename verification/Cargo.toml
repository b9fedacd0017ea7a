[package]
name = "nu_plugin_compress"
version = "0.1.0"
edition = "2021"
publish = false

[dependencies]
flate2 = "=1.1.10"
zstd = "=0.14.0"
xz2 = "=0.1.7"
bzip2 = "=0.6.1"
nu-plugin = "=0.115.1"
nu-protocol = "=0.115.1"
