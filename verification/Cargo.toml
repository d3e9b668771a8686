[package]
name = "minimalist_browser"
version = "1.0.0"
edition = "2021"
publish = false

[dependencies]
url = "2"
urlencoding = "2"
serde = { version = "1", features = ["derive"] }
serde_json = "1"
log = "0.4"
env_logger = "0.10"
lazy_static = "1.4"
winapi = { version = "0.3", features = ["psapi", "processthreadsapi"] }
wry = "0.24"
