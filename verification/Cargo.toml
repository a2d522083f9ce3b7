[package]
name = "discidium"
version = "0.1.0"
edition = "2021"
publish = false

[dependencies]
anyhow = "1"
chrono = { version = "0.4", default-features = false, features = ["now"] }
ewebsock = "*"
flate2 = "1"
keyring = "3"
reqwest = { version = "0.12", default-features = false, features = ["blocking", "json", "rustls-tls"] }
secrecy = "0.10"
serde_json = "1"
time = "0.3"
ureq = { version = "2", features = ["json"] }
whoami = "1"
