[package]
name = "test_proc_macros"
version = "0.1.0"
edition = "2021"
publish = false

[dependencies]
heck = "*"
proc-macro2 = "*"
quote = "*"
syn = { version = "*", features = ["full"] }
