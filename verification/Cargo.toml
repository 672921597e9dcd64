[package]
name = "segment_clock"
version = "0.1.0"
edition = "2021"
publish = false

[dependencies]
datealgo = "=0.2.2"
heapless = "=0.9.3"
portable-atomic = { version = "=1.15.0", features = ["critical-section"] }
cyw43 = { version = "0.7.0", features = ["defmt", "firmware-logs"] }
cyw43-pio = { version = "0.10.0", features = ["defmt"] }
defmt = "1.2.0"
defmt-rtt = "1.3.1"
embassy-executor = { version = "0.9.1", features = ["defmt"] }
embassy-net = { version = "0.9.1", features = ["defmt", "tcp", "dhcpv4", "dns", "medium-ethernet", "proto-ipv4"] }
embassy-rp = { version = "0.10.0", features = ["defmt", "unstable-pac", "time-driver", "critical-section-impl", "rp2040"] }
embassy-time = { version = "0.5.1", features = ["defmt", "defmt-timestamp-uptime"] }
embassy-usb = { version = "0.6.0", features = ["defmt"] }
embedded-hal = "1.0.0"
panic-probe = { version = "1.0.0", features = ["print-defmt"] }
reqwless = { version = "0.14.0", default-features = false, features = ["defmt"] }
rp-pico = "0.9.0"
serde = { version = "1.0.229", default-features = false, features = ["derive"] }
serde-json-core = "0.7.0"
static_cell = "2.1.1"
