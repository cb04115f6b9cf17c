[package]
name = "portzap"
version = "0.1.0"
edition = "2021"
publish = false

[dependencies]
procfs = "=0.18.0"
nix = { version = "=0.31.3", features = ["signal", "socket", "process", "net", "fs"] }
libproc = "*"
clap = { version = "*", features = ["derive"] }
clap_complete = "*"
serde = { version = "*", features = ["derive"] }
serde_json = "*"
toml = "*"
dirs = "*"
signal-hook = "*"
comfy-table = "*"
owo-colors = "*"
dialoguer = "*"
anyhow = "*"
thiserror = "*"
