[package]
name = "kaku_window"
version = "0.1.0"
edition = "2021"
publish = false

[dependencies]
winapi = { version = "0.3", features = ["winuser", "wingdi", "synchapi", "handleapi", "ole2", "minwindef", "windef", "winnt"] }
glium = { version = "0.35", default-features = false }
raw-window-handle = "0.6"
anyhow = "1"
log = "0.4"
async-trait = "0.1"
