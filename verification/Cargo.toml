[package]
name = "aviation_calc_util"
version = "0.1.0"
edition = "2021"
publish = false

[dependencies]
anyhow = "1"
chrono = "0.4"
grib = { version = "*", default-features = false }
ureq = "2"
