[package]
name = "pyvm"
version = "0.1.0"
edition = "2021"
publish = false

[dependencies]
crossbeam-utils = "0.7"
itertools = "0.9"
rand = "0.7"
