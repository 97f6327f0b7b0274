[package]
name = "generative_ecs"
version = "0.1.0"
edition = "2021"
publish = false

[dependencies]
bit-set = "=0.11.1"
code-gen = { version = "=0.10.0", features = ["rust"] }
