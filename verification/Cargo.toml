[package]
name = "rime_tray"
version = "0.1.0"
edition = "2021"
publish = false

[dependencies]
anyhow = "=1.0.104"
image = { version = "=0.25.10", default-features = false, features = ["png"] }
log = "=0.4.34"
log4rs = { version = "=1.4.0", default-features = false, features = ["console_appender", "rolling_file_appender", "compound_policy", "fixed_window_roller", "size_trigger", "pattern_encoder", "threshold_filter", "toml_format", "config_parsing"] }
serde = { version = "=1.0.229", features = ["derive"] }
sysinfo = { version = "=0.39.6", default-features = false, features = ["system"] }
toml = "=1.1.6"
