[package]
name = "sensor"
version = "0.1.0"
edition = "2021"
publish = false

[dependencies]
dht20 = "0.1"
embassy-executor = "0.6"
embassy-net = { version = "0.4", features = ["tcp", "dhcpv4", "proto-ipv4", "medium-ethernet"] }
embassy-sync = "0.6"
embassy-time = "0.3"
embedded-graphics = "0.8"
embedded-io-async = "0.6"
esp-alloc = "0.5"
esp-backtrace = { version = "0.14", features = ["esp32", "panic-handler", "exception-handler", "println"] }
esp-hal = { version = "0.21", features = ["esp32"] }
esp-hal-embassy = { version = "0.4", features = ["esp32"] }
esp-println = { version = "0.12", features = ["esp32", "log"] }
esp-wifi = { version = "0.10", features = ["esp32", "wifi", "embassy-net"] }
format_no_std = "1.2"
log = "0.4"
ssd1306 = "0.9"
static_cell = "2.1"
