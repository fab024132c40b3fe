[package]
name = "picture-frame-ui"
version = "0.1.0"
edition = "2021"
publish = false

[dependencies]
anyhow = "1"
env_logger = "*"
gio = "*"
glib = "*"
gtk4 = "*"
log = "0.4"
serde = { version = "1", features = ["derive"] }
serde_json = "1"
sysinfo = "*"
url = "2"

[dev-dependencies]
tempfile = "3"
