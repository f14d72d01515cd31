[package]
name = "at32f4xx-hal"
version = "0.1.0"
edition = "2021"
publish = false

[dependencies]
at32f4xx-pac = { version = "=0.4.0", default-features = false, features = ["at32f415"] }
chrono = { version = "=0.4.45", default-features = false }
cortex-m = "=0.7.10"
critical-section = { version = "=1.2.0", features = ["std"] }
embassy-futures = "=0.1.2"
embassy-sync = "=0.8.0"
embassy-time = "=0.5.1"
embedded-can = "=0.4.1"
embedded-hal = "=1.0.0"
embedded-hal-async = "=1.0.0"
embedded-hal-nb = "=1.0.0"
embedded-io-async = "=0.7.0"
fugit = "=0.3.9"
nb = "=1.1.0"
