[package]
name = "mailwatch"
version = "0.1.0"
edition = "2021"
publish = false

[dependencies]
chrono = "=0.4.45"
edit-distance = "=2.2.2"
email = "=0.0.21"
imap = "=2.4.1"
log = "=0.4.34"
native-tls = "*"
serde_json = "=1.0.151"
simple_logger = "=5.2.0"
structopt = "=0.3.26"
