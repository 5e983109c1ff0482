[package]
name = "arduino_lessons"
version = "0.1.0"
edition = "2021"
publish = false

[dependencies]
avr-device = { version = "0.5", features = ["atmega328p", "rt"] }
embedded-hal = "0.2"
panic-halt = "0.2"
ufmt = "0.2"
