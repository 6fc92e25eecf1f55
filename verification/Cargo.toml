[package]
name = "vesa"
version = "0.1.0"
edition = "2021"
publish = false

[dependencies]
ring = "=0.17.14"
rcgen = "=0.13.2"
quinn = { version = "=0.11.12", default-features = false, features = ["runtime-tokio", "rustls-ring", "log"] }
rustls = { version = "=0.23.46", default-features = false, features = ["ring", "std", "logging", "tls12"] }
tokio = { version = "=1.54.1", features = ["full"] }
tracing = "=0.1.44"
tracing-subscriber = "=0.3.23"
clap = { version = "=4.6.7", features = ["derive"] }
anyhow = "=1.0.104"
serde = { version = "=1.0.229", features = ["derive"] }
toml = "=0.8.23"
thiserror = "=2.0.21"
evdev = "=0.12.2"
nix = { version = "=0.29.0", features = ["poll"] }
core-foundation = "=0.10.1"
core-graphics = "=0.25.0"
foreign-types = "=0.5.0"
windows = { version = "0.58", features = ["Win32_Foundation", "Win32_UI_WindowsAndMessaging", "Win32_System_Threading", "Win32_UI_Input_KeyboardAndMouse"] }

[dev-dependencies]
serde_json = "=1.0.154"
