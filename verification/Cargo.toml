[package]
name = "persian_subtitle_fixer"
version = "0.4.0"
edition = "2021"
publish = false

[dependencies]
thiserror = "=1.0.69"
gtk4 = { version = "=0.8.2", features = ["v4_10"] }
libadwaita = { version = "=0.6.0", features = ["v1_2"] }
glib = "=0.19.9"
dirs = "=5.0.1"

[dev-dependencies]
encoding_rs = "=0.8.42"
