[package]
name = "execution_results"
version = "0.1.0"
edition = "2021"
publish = false

[dependencies]
casper-types = "=3.0.0"
casper-hashing = "=2.0.0"
casper-execution-engine = "=6.0.0"
once_cell = "=1.21.4"
num-rational = "=0.4.2"
