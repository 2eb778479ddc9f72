[package]
name = "ducky_nif"
version = "0.1.0"
edition = "2021"
publish = false

[dependencies]
duckdb = "=1.10506.0"
rustler = "=0.38.0"
