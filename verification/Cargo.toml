[package]
name = "datefmt"
version = "0.1.0"
edition = "2021"
publish = false

[dependencies]
chrono = "=0.4.45"
icu = { version = "=1.5.0", features = ["icu_datetime_experimental"] }
