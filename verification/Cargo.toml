[package]
name = "sysmon"
version = "0.1.0"
edition = "2021"

[dependencies]
sysinfo = "0.32"
wasm-bindgen = "0.2"
