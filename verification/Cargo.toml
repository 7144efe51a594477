[package]
name = "schannel"
version = "0.1.0"
edition = "2021"
publish = false

[dependencies]
winapi = "0.2"
crypt32-sys = "0.2"
windows-targets = "*"
