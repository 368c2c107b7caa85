[package]
name = "rsthrottled"
version = "0.1.0"
edition = "2021"
publish = false

[dependencies]
flate2 = "*"
num_cpus = "*"
libc = "*"
log = "*"
glib = "*"
