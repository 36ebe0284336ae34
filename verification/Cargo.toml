[package]
name = "ray_tuples"
version = "0.1.0"
edition = "2021"
publish = false

[dependencies]
regex = "1"
simple_logger = "*"
structopt = "0.3"
