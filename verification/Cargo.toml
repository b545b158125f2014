[package]
name = "feature_runner"
version = "0.1.0"
edition = "2021"
publish = false

[dependencies]
termcolor = "1"
