[package]
name = "geph_bootstrap"
version = "0.1.0"
edition = "2021"
publish = false

[dependencies]
anyhow = "=1.0.104"
binary-search = "=0.1.3"
log = "=0.4.34"
rlimit = "=0.6.2"
windows-service = "=0.8.1"
