[package]
name = "fdintercept"
version = "0.1.0"
edition = "2021"
publish = false

[dependencies]
anyhow = "1"
clap = { version = "4", features = ["derive"] }
mio = { version = "1", features = ["os-poll", "os-ext"] }
nix = { version = "*", features = ["fs", "process", "signal"] }
non-empty-string = "*"
nonempty = "*"
serde = { version = "1", features = ["derive"] }
shlex = "1"
signal-hook = "*"
toml = "*"
wait-timeout = "*"
