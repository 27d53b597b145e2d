[package]
name = "morel"
version = "0.1.0"
edition = "2021"
publish = false

[dependencies]
crossterm = "0.27"
notify = "6.1"
notify-debouncer-full = "0.3"
thiserror = "1.0"
