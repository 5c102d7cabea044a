[package]
name = "demo-firmware"
version = "0.1.0"
edition = "2021"
publish = false

[dependencies]
heapless = "=0.8.0"
embassy-sync = "=0.8.0"
embassy-rp = { version = "=0.10.0", features = ["rp2040", "time-driver", "unstable-pac", "defmt"] }
embassy-executor = { version = "=0.9.1", features = ["defmt"] }
embassy-net = { version = "=0.9.1", features = ["defmt", "tcp", "dhcpv4", "medium-ethernet", "proto-ipv4"] }
embassy-net-wiznet = { version = "=0.3.0", features = ["defmt"] }
embassy-embedded-hal = "=0.6.0"
embassy-time = { version = "=0.5.1", features = ["defmt"] }
embassy-futures = "=0.1.2"
embedded-io-async = "=0.7.0"
static_cell = "=2.1.1"
defmt = "=1.2.0"
defmt-rtt = "=1.3.1"
panic-probe = { version = "=1.0.0", features = ["print-defmt"] }
portable-atomic = { version = "=1.15.0", features = ["critical-section"] }
assign-resources = "=0.5.0"

[dev-dependencies]
critical-section = { version = "=1.2.0", features = ["std"] }
