[package]
name = "saywrite"
version = "0.1.0"
edition = "2021"
publish = false

[dependencies]
anyhow = "1"
dirs = "5"
serde = { version = "1", features = ["derive"] }
serde_json = "1"
tokio = { version = "1", features = ["full"] }
tokio-stream = "0.1"
zbus = "3"
ureq = "2"
glib = "*"
gtk4 = "*"
libadwaita = "*"
