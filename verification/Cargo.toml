[package]
name = "fastrace_tracing"
version = "0.1.0"
edition = "2021"
publish = false

[dependencies]
fastrace = { version = "=0.7.19", features = ["enable"] }
take_mut = "=0.2.2"
tracing-core = "=0.1.36"
tracing-subscriber = "=0.3.23"
