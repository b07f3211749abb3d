[package]
name = "umbrella"
version = "0.1.0"
edition = "2021"
publish = false

[dependencies]
semver = "1"
glib = "*"
gtk4 = "*"
libadwaita = { version = "*", features = ["v1_5"] }
libsecret = "*"
