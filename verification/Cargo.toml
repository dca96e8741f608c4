[package]
name = "eddystone_beacon"
version = "0.1.0"
edition = "2021"
publish = false

[dependencies]
fixed = "=1.31.0"
nrf51-hal = "=0.12.2"
cortex-m-rtfm = "=0.5.3"
rubble = "=0.0.4"
rubble-nrf5x = { version = "=0.0.4", features = ["51"] }
