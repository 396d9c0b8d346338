[package]
name = "iron_test"
version = "0.1.0"
edition = "2021"
publish = false

[dependencies]
url = "*"
hyper = "0.10"
iron = "*"
