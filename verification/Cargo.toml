[package]
name = "keytan"
version = "0.1.0"
edition = "2021"
publish = false

[dependencies]
crossterm = "0.28"
parking_lot = "0.12"
ratatui = { version = "0.29", features = ["unstable-rendered-line-info"] }
tui-widget-list = "0.13"
