[package]
name = "pike"
version = "0.1.0"
edition = "2021"
publish = false

[dependencies]
liquid = "=0.26.11"
# kstring is liquid's key type; 2.0.4 and 2.0.5 demand a newer rustc than
# this toolchain, so the transitive choice is pinned to 2.0.0 here
kstring = "=2.0.0"
nix = { version = "=0.31.3", features = ["signal"] }
anyhow = "=1.0.104"
clap = { version = "=4.6.7", features = ["derive"] }
colog = "=1.4.0"
colored = "=3.1.1"
ctrlc = "=3.5.2"
flate2 = "=1.1.10"
fs_extra = "=1.3.0"
log = "=0.4.34"
serde = { version = "=1.0.229", features = ["derive"] }
serde_json = "=1.0.151"
serde_yaml = "=0.9.34"
tar = "=0.4.46"
toml = "=0.9.8"
