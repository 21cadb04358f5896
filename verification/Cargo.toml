[package]
name = "scratch"
version = "0.1.0"
edition = "2021"
publish = false

[dependencies]
handlebars = "=6.4.4"
log = "=0.4.34"
mime_guess = "=2.0.5"
nix = { version = "=0.31.3", features = ["net"] }
num_cpus = "=1.17.0"
pretty_env_logger = "=0.5.0"
serde = { version = "=1.0.229", features = ["derive"] }
