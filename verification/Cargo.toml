[package]
name = "request_auth"
version = "0.1.0"
edition = "2021"
publish = false

[dependencies]
snarkvm-console-account = "*"
snarkvm-console-algorithms = "*"
snarkvm-console-network = "*"
snarkvm-console-program = "*"
snarkvm-console-types = "*"
snarkvm-utilities = "*"
rand = "0.8"
itertools = "*"
proc-macro2 = "*"
quote = "*"
syn = "*"
