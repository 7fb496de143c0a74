[package]
name = "i2c_ble_client"
version = "0.1.0"
edition = "2021"
publish = false

[dependencies]
anyhow = "1"
btleplug = "0.11"
chrono = "0.4"
clap = { version = "4", features = ["derive"] }
crossterm = "0.27"
futures = "0.3"
ratatui = "0.26"
tokio = { version = "1", features = ["macros", "rt-multi-thread", "sync", "time"] }
uuid = "1"
