[package]
name = "rr_driver"
version = "0.1.0"
edition = "2021"
publish = false

[dependencies]
iced = { version = "=0.12.1", default-features = false }
iced_aw = { version = "=0.9.3", default-features = false, features = ["tabs", "number_input"] }
serialport = { version = "=4.10.1", default-features = false }
