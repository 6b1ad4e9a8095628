[package]
name = "gesetze_im_internet"
version = "0.2.0"
edition = "2021"
publish = false

[dependencies]
clap = "=2.34.0"
log = "=0.4.34"
regex = "=1.13.1"
reqwest = { version = "=0.12.28", features = ["blocking"] }
stderrlog = "=0.6.0"
url = "=2.5.8"
xml-rs = "=0.8.29"
zip = { version = "2", default-features = false, features = ["deflate"] }
