[package]
name = "mini-current-meter"
version = "0.1.0"
edition = "2021"
publish = false

[dependencies]
anyhow = "1"
chrono = "0.4"
embedded-graphics = "0.8"
embedded-hal = "0.2"
embedded-svc = "*"
esp-idf-hal = "*"
esp-idf-svc = "*"
esp-idf-sys = "*"
log = "0.4"
ssd1306 = "0.8"
tinybmp = "*"
toml-cfg = "*"
