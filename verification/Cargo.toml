[package]
name = "desktop-mcp"
version = "0.1.0"
edition = "2021"
publish = false

[dependencies]
serde = { version = "1", features = ["derive"] }
serde_json = "1"
toml = "0.8"
thiserror = "1"
async-trait = "0.1"
tokio = { version = "1", features = ["full"] }
axum = "0.7"
tower-http = { version = "0.5", features = ["cors"] }
futures = "0.3"
clap = { version = "4", features = ["derive"] }
tracing-subscriber = "0.3"
base64 = "0.22"
image = { version = "0.25", default-features = false, features = ["png", "jpeg"] }
libc = "0.2"
core-graphics = "0.23"
core-foundation = "0.9"
core-foundation-sys = "0.8"
foreign-types = "0.5"
cocoa = "0.25"
objc = "0.2"
