[package]
name = "vpn_handler"
version = "0.1.0"
edition = "2021"
publish = false

[dependencies]
chrono = "=0.4.45"
geolocation = "*"
notify-rust = "4"
rand = "=0.9.5"
reqwest = { version = "0.12", features = ["blocking", "json"] }
serde = { version = "1", features = ["derive"] }
serialport = { version = "=4.10.1", default-features = false }
