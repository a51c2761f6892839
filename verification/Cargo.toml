[package]
name = "vr_hass_power"
version = "0.1.0"
edition = "2021"
publish = false

[dependencies]
directories = "3"
serde = { version = "1", features = ["derive"] }
serde_json = "1"
sysinfo = "0.19"
toml = "0.5"
tracing = "0.1"
tracing-subscriber = "0.2"
ureq = { version = "2", features = ["json"] }
