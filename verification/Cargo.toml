[package]
name = "nutext"
version = "0.1.0"
edition = "2021"
publish = false

[dependencies]
current_locale = "=0.1.1"
gettext = "=0.4.0"
locale-match = "=0.2.4"
strfmt = "=0.2.6"
nu-plugin = { version = "=0.112.2", default-features = false }
nu-protocol = { version = "=0.112.2", default-features = false }
