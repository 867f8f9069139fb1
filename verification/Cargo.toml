[package]
name = "crabkit"
version = "0.1.0"
edition = "2021"
publish = false

[dependencies]
anyhow = "=1.0.104"
rustc-demangle = "0.1"
write-json = "=0.1.4"
xflags = "=0.3.2"
xshell = "=0.2.7"
