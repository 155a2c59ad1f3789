[package]
name = "tcod_window"
version = "0.1.0"
edition = "2021"
publish = false

[dependencies]
pistoncore-input = "=1.0.1"
pistoncore-window = "=1.0.0"
tcod = "=0.15.0"

[dev-dependencies]
pistoncore-event_loop = "1"
