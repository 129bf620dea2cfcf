[package]
name = "stack_cstr"
version = "0.1.0"
edition = "2021"

[dependencies]
arrayvec = "0.7"
thiserror = "2"
