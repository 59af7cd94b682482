[package]
name = "saswatch"
version = "0.1.0"
edition = "2021"
publish = false

[dependencies]
better-panic = "0.3"
clipboard = "0.5"
color-eyre = "0.6"
crossterm = "0.28"
directories = "5"
lazy_static = "1"
palette = "0.7"
rand = "0.8"
ratatui = { version = "0.29", features = ["unstable-widget-ref"] }
