[package]
name = "rak11300-rnode"
version = "0.1.0"
edition = "2021"
publish = false

[dependencies]
heapless = "=0.8.0"
lora-phy = "=3.0.1"
defmt = "=1.2.0"
defmt-rtt = "=1.3.1"
panic-probe = "=1.0.0"
embassy-executor = "=0.10.0"
embassy-futures = "=0.1.2"
embassy-rp = { version = "=0.10.0", features = ["rp2040", "time-driver", "critical-section-impl"] }
embassy-time = "=0.5.1"
embassy-usb = "=0.6.0"
embedded-hal-bus = "=0.3.0"
static_cell = "=2.1.1"
