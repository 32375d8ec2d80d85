[package]
name = "cave"
version = "0.1.0"
edition = "2021"
publish = false

[dependencies]
atomic_float = "=1.1.0"
raw-window-handle = "=0.6.2"
clack-plugin = "=0.2.0"
clack-extensions = { version = "=0.2.0", features = ["audio-ports", "note-ports", "params", "gui", "raw-window-handle_06", "clack-plugin"] }
baseview = "=0.4.0"
egui-baseview = "=0.8.0"
egui = "=0.36.2"
