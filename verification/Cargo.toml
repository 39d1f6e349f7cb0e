[package]
name = "cpufreq_applet"
version = "0.1.0"
edition = "2021"
publish = false

[dependencies]
i18n-embed = { version = "0.16", features = ["desktop-requester", "filesystem-assets", "fluent-system"] }
serde = { version = "1", features = ["derive"] }
tracing = "0.1"
tracing-subscriber = "0.3"
