[package]
name = "httpstime-rs"
version = "0.1.0"
edition = "2021"
publish = false

[dependencies]
curl = "=0.2.19"
getopts = "=0.2.24"
hyper = "=0.10.16"
log = "=0.3.9"
shuteye = "=0.0.5"
time = "=0.1.45"
