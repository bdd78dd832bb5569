[package]
name = "ozy"
version = "0.1.0"
edition = "2021"
publish = false

[dependencies]
anyhow = "=1.0.104"
bzip2 = "=0.6.1"
clap = { version = "=4.6.7", features = ["derive"] }
exec = "=0.3.1"
file-lock = "=2.1.11"
flate2 = "=1.1.10"
os_pipe = "=1.2.3"
reqwest = { version = "=0.12.28", default-features = false, features = ["blocking", "rustls-tls"] }
semver = "=1.0.28"
serde_yaml = "=0.9.34"
tar = "=0.4.46"
tempfile = "=3.27.0"
uuid = { version = "=1.27.0", features = ["v4"] }
which = "=8.0.6"
xz2 = "=0.1.7"
zip = "=8.6.0"
zip-extract = "=0.3.0"
