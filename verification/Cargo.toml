[package]
name = "llama_session"
version = "0.1.0"
edition = "2021"
publish = false

[dependencies]
llama_cpp_sys = "*"
