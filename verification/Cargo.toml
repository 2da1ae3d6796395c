[package]
name = "cam-stream"
version = "0.1.0"
edition = "2021"
publish = false

[dependencies]
anyhow = "1"
axum = { version = "0.7", default-features = false, features = ["http1", "json", "tokio", "ws"] }
bytes = "1"
eframe = { version = "0.33", default-features = false, features = ["default_fonts", "glow", "x11"] }
image = { version = "0.25", default-features = false, features = ["jpeg"] }
parking_lot = "0.12"
serde = { version = "1", features = ["derive"] }
serde_json = "1"
tokio = { version = "1", features = ["macros", "net", "rt-multi-thread", "sync"] }
tower-http = { version = "0.6", features = ["cors"] }
tracing = "0.1"
tracing-appender = { version = "0.2", default-features = false }
tracing-subscriber = { version = "0.3", features = ["env-filter"] }
windows = { version = "0.62", features = ["Win32_Foundation", "Win32_Media_MediaFoundation", "Win32_System_Com", "Win32_System_Com_StructuredStorage", "Win32_System_Variant"] }
muda = { version = "0.21", default-features = false }
tray-icon = { version = "0.26", default-features = false }
