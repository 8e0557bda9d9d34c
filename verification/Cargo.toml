[package]
name = "golfer"
version = "0.1.0"
edition = "2021"
publish = false

[dependencies]
heapless = "0.8"
embedded-sdmmc = { version = "0.9", default-features = false }
embedded-graphics = "0.8"
embedded-hal-bus = "0.3"
embedded-io-async = "*"
embassy-executor = "*"
embassy-rp = { version = "*", default-features = false, features = ["rp235xa", "time-driver", "critical-section-impl"] }
embassy-sync = "*"
embassy-time = "*"
lora-phy = "3"
mipidsi = "0.9"
static_cell = "2"
defmt = "1"
defmt-rtt = "1"
panic-probe = "1"
