[package]
name = "cuneiforbits"
version = "0.1.0"
edition = "2021"
publish = false

[dependencies]
termion = "=1.5.6"
rand = "=0.7.3"
lazy_static = "1"
static_assertions = "1"
