[package]
name = "peach_web"
version = "0.4.6"
edition = "2021"
publish = false

[dependencies]
env_logger = "=0.8.4"
jsonrpc-client-core = "=0.5.0"
jsonrpc-client-http = { version = "=0.5.0", default-features = false }
log = "=0.4.34"
nest = "=1.0.0"
percent-encoding = "=2.3.2"
regex = "=1.13.1"
rocket = { version = "0.5", default-features = false, features = ["json"] }
rocket_dyn_templates = { version = "*", features = ["tera"] }
serde = { version = "=1.0.229", features = ["derive"] }
serde_json = "=1.0.154"
snafu = "=0.6.10"
websocket = { version = "=0.26.5", default-features = false, features = ["sync"] }
xdg = "=2.5.2"
