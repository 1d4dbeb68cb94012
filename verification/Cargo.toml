[package]
name = "mail_autoconfig"
version = "0.1.0"
edition = "2021"
publish = false

[dependencies]
percent-encoding = "=2.3.2"
sha2 = "=0.10.9"
hex = "=0.4.3"
anyhow = "=1.0.104"
thiserror = "=1.0.69"
async-std = "=1.13.2"
futures = "=0.3.34"
quick-xml = "=0.42.0"
async-smtp = { version = "=0.10.2", default-features = false, features = ["runtime-async-std"] }
pgp = "=0.21.0"
rand = "=0.8.8"
smallvec = "=1.16.4"
