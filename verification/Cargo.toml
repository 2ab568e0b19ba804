[package]
name = "docker_sandbox"
version = "0.1.0"
edition = "2021"
publish = false

[dependencies]
serde_json = "*"
scopeguard = "*"
nix = { version = "*", features = ["signal", "user"] }
is_executable = "*"
