[package]
name = "psql_copy_harness"
version = "0.1.0"
edition = "2021"
publish = false

[dependencies]
expectrl = "*"
similar = "*"
tempfile = "*"
termcolor = "*"
uuid = { version = "*", features = ["v4"] }
