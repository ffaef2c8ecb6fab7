[package]
name = "hook0_mailer"
version = "0.1.0"
edition = "2021"
publish = false

[dependencies]
mrml = "=6.0.1"
html2text = "=0.17.1"
lettre = { version = "=0.11.23", default-features = false, features = ["smtp-transport", "builder", "rustls-tls"] }
log = "=0.4.34"
url = "*"
