[package]
name = "ironbar_compositor"
version = "0.1.0"
edition = "2021"
publish = false

[dependencies]
hyprland = "0.4.0-alpha.3"
serde = { version = "1", features = ["derive"] }
serde_json = "1"
thiserror = "*"
tokio = { version = "1", features = ["sync", "rt"] }
tracing = "0.1"
glib = "*"
gtk4 = { version = "*", features = ["v4_8"] }
