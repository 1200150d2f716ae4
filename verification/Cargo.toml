[package]
name = "openrtx_companion"
version = "0.1.0"
edition = "2021"
publish = false

[dependencies]
image = { version = "0.25", default-features = false, features = ["png"] }
rfd = "0.15"
serial_enumerator = "0.3"
tracing = "0.1"
tracing-subscriber = "0.3"
winapi = { version = "0.3", features = ["wincon"] }
