[package]
name = "wl-clipboard-rs"
version = "0.9.0"
edition = "2021"
publish = false

[dependencies]
mime_guess = "2"
wayland-client = "0.31"
wayland-backend = "0.3"
wayland-protocols = { version = "0.32", features = ["client", "staging"] }
wayland-protocols-wlr = { version = "0.3", features = ["client"] }
os_pipe = "1"
rustix = { version = "0.38", features = ["fs", "stdio"] }
tempfile = "3"
tree_magic_mini = "3"
thiserror = "1"
libc = "0.2"
