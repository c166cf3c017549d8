[package]
name = "simplefs"
version = "0.1.0"
edition = "2021"
publish = false

[dependencies]
clap = "=4.6.7"
env_logger = "=0.11.11"
fuser = { version = "=0.14.0", default-features = false }
libc = "=0.2.190"
tracing = "=0.1.44"
tracing-subscriber = "=0.3.23"
