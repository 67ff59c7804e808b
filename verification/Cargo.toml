[package]
name = "cosmic_ext_applet_updates"
version = "0.4.0"
edition = "2021"
publish = false

[dependencies]
dirs = "6"
serde = { version = "1", features = ["derive"] }
tokio = { version = "1", features = ["rt", "time"] }
toml = "0.8"
