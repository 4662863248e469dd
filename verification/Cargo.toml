[package]
name = "learsim_glass"
version = "0.1.0"
edition = "2021"
publish = false

[dependencies]
serde = { version = "1", features = ["derive"] }
serde_json = "1"
hostname = "0.4"
uuid = { version = "1", features = ["v4"] }
url = "2"
zune-jpeg = "0.4"
tokio = { version = "1", features = ["full"] }
axum = "0.8"
tower-http = { version = "0.6", features = ["cors"] }
reqwest = { version = "0.12", default-features = false, features = ["json"] }
tokio-tungstenite = "0.26"
futures-util = "0.3"
chrono = "0.4"
dirs = "6"
sdl2 = { version = "0.37", features = ["ttf"] }
