[package]
name = "clashtui_tray"
version = "0.1.0"
edition = "2021"
publish = false

[dependencies]
image = { version = "=0.25.10", default-features = false, features = ["png"] }
muda = { version = "=0.15.3", default-features = false }
reqwest = { version = "=0.12.28", default-features = false, features = ["blocking", "json", "rustls-tls"] }
serde_json = "=1.0.154"
tray-icon = { version = "=0.19.3", default-features = false }
winit = { version = "=0.30.13", default-features = false, features = ["rwh_06", "x11"] }
winreg = "=0.55.0"
