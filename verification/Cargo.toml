[package]
name = "diorama"
version = "0.1.0"
edition = "2021"
publish = false

[dependencies]
image = { version = "*", default-features = false, features = ["png", "jpeg"] }
lru = "*"
palette = "*"
tracing = "*"
gtk4 = "*"
libadwaita = "*"

[dev-dependencies]
tempfile = "*"
