[package]
name = "commons"
version = "0.1.0"
edition = "2021"
publish = false

[dependencies]
toml = "0.8"
serde = { version = "1", features = ["derive"] }
libcnb = "=0.30.4"
libherokubuildpack = "=0.30.4"
fun_run = "*"
fs-err = "*"
fs_extra = "*"
tempfile = "3"
flate2 = "1"
tar = "0.4"
ureq = "2"
byte-unit = "*"
glob = "0.3"
thiserror = "*"
bon = "*"
