[package]
name = "xfp_protocol"
version = "0.1.0"
edition = "2021"
publish = false

[dependencies]
faccess = "*"
nix = { version = "*", features = ["user"] }
serde = "1"
serde_json = "1"
time = { version = "0.3", features = ["formatting", "parsing"] }
windows-permissions = "*"
