[package]
name = "clipboard-applet"
version = "0.1.0"
edition = "2021"
publish = false

[dependencies]
ksni = "0.3"
libc = "0.2"
notify-rust = "4"
serde = { version = "1", features = ["derive"] }
tempfile = "3"
tokio = { version = "1", features = ["macros", "process", "rt", "signal", "sync", "time"] }
toml = "0.9"
wayland-client = "0.31"
wayland-protocols = { version = "0.32", features = ["client", "staging"] }
wayland-protocols-wlr = { version = "0.3", features = ["client"] }
wl-clipboard-rs = "0.9"
