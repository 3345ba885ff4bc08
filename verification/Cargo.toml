[package]
name = "songquiz"
version = "0.1.0"
edition = "2021"
publish = false

[dependencies]
anyhow = "1"
argh = "0.1"
axum = { version = "0.8", features = ["ws"] }
axum-extra = { version = "0.10", features = ["typed-header"] }
either = "1"
env_logger = "0.11"
futures = "0.3"
gloo = "0.11"
lazy_static = "1"
log = "0.4"
rand = "0.8"
rspotify = "*"
serde = { version = "1", features = ["derive"] }
serde_json = "1"
tokio = { version = "1", features = ["macros", "net", "rt-multi-thread", "sync"] }
url = "2"
wasm-bindgen = "0.2"
web-sys = { version = "0.3", features = ["Element", "HtmlInputElement"] }
yew = { version = "0.21", features = ["csr"] }
yew-router = "0.18"
