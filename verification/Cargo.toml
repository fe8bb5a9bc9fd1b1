[package]
name = "hook_dispatch"
version = "0.1.0"
edition = "2021"
publish = false

[dependencies]
juju = "=0.3.1"
