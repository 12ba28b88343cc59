[package]
name = "sfy_buoy"
version = "0.1.0"
edition = "2021"
publish = false

[dependencies]
base64 = "=0.13.1"
embedded-hal = "=0.2.7"
embedded-sdmmc = "=0.3.0"

[dev-dependencies]
half = "=2.7.1"
