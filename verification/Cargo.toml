[package]
name = "terrar"
version = "0.1.0"
edition = "2021"
publish = false

[dependencies]
colorous = "=1.0.16"
serde = { version = "=1.0.229", features = ["derive"] }
serde_json = "=1.0.154"
reqwest = { version = "=0.12.28", default-features = false, features = ["json", "rustls-tls"] }
tokio = { version = "=1.54.1", features = ["rt-multi-thread", "time"] }
eframe = { version = "=0.36.2", default-features = false, features = ["glow", "x11", "default_fonts"] }
egui = "=0.36.2"
egui-phosphor = { version = "=0.14.0", features = ["fill"] }
log = "=0.4.35"
env_logger = { version = "=0.11.11", default-features = false }
web-time = "=1.1.0"
wasm-bindgen = "*"
wasm-bindgen-futures = "*"
web-sys = { version = "*", features = ["Window", "Document", "Element", "HtmlCanvasElement"] }
gloo-timers = { version = "*", features = ["futures"] }
