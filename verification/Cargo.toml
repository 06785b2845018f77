[package]
name = "firefly"
version = "0.1.0"
edition = "2021"
publish = false

[dependencies]
ableton-link-rs = "=0.1.2"
anyhow = "1"
chrono = "0.4"
clap = { version = "4", features = ["derive"] }
crc = "=3.4.0"
ctrlc = "3"
embedded-graphics = "=0.8.2"
esp-idf-svc = "*"
heapless = "=0.8.0"
log = "0.4"
serialport = { version = "4", default-features = false }
ssd1306 = "=0.9.0"
tokio = { version = "1", features = ["full"] }
tracing = "0.1"
tracing-subscriber = "0.3"
