[package]
name = "early_init"
version = "0.1.0"
edition = "2021"
publish = false

[dependencies]
anyhow = "1"
efivar = "*"
gpt = "*"
nix = { version = "*", features = ["mount", "fs", "dir"] }
uefi = "*"
