[package]
name = "qrgen"
version = "0.1.0"
edition = "2021"
publish = false

[dependencies]
csv = "=1.4.0"
env_logger = "=0.6.2"
log = "=0.4.34"
png = "=0.14.1"
qrcodegen = "=1.6.0"
rayon = "=1.12.0"
structopt = "=0.2.18"
