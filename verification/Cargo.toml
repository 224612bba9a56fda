[package]
name = "morse_entry"
version = "0.1.0"
edition = "2021"
publish = false

[dependencies]
morse-codec = "*"
ag-lcd = "*"
avr-device = { version = "*", features = ["atmega328p"] }
panic-halt = "*"
