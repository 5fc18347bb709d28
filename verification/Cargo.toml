[package]
name = "wuffagent-egui"
version = "0.1.0"
edition = "2021"
publish = false

[dependencies]
arboard = "=3.7.0"
base64 = "=0.22.1"
chrono = "=0.4.45"
dirs = "=7.0.0"
eframe = { version = "=0.37.0", default-features = false, features = ["default_fonts", "glow", "x11"] }
egui = "=0.37.0"
egui_plot = "=0.38.0"
image = { version = "=0.25.10", default-features = false, features = ["png", "jpeg", "webp", "bmp", "gif"] }
rfd = { version = "=0.17.2", default-features = false, features = ["xdg-portal"] }
serde_json = "=1.0.154"
tokio = { version = "=1.54.1", features = ["rt-multi-thread", "macros", "time", "sync"] }
tracing = "=0.1.44"
tracing-subscriber = { version = "=0.3.23", features = ["env-filter"] }
