[package]
name = "steelmouse"
version = "2.3.1"
edition = "2021"
publish = false

[dependencies]
chrono = { version = "=0.4.45", default-features = false, features = ["clock", "std"] }
image = { version = "=0.25.10", default-features = false }
hidapi = "=2.6.7"
serde = { version = "=1.0.229", features = ["derive"] }
serde_json = "=1.0.154"
directories = "=5.0.1"
clap = { version = "=4.6.7", features = ["derive", "env"] }
ctrlc = "=3.5.2"
tray-icon = "=0.26.1"
muda = "=0.21.2"
tao = "=0.37.2"
