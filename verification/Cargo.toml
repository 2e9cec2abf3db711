[package]
name = "rusty_hass_laptop"
version = "0.1.0"
edition = "2021"
publish = false

[dependencies]
battery = "0.7"
convert_case = "0.6"
directories = "5"
reqwest = { version = "0.12", default-features = false, features = ["blocking", "json", "rustls-tls"] }
serde_json = "1"
sys-info = "0.9"
