[package]
name = "fir"
version = "0.1.0"
edition = "2021"
publish = false

[dependencies]
derive_more = { version = "*", features = ["from"] }
enum-iterator = "*"
env_logger = "*"
image = { version = "*", default-features = false, features = ["png", "jpeg"] }
log = "*"
sdl2 = "*"
serde = { version = "*", features = ["derive"] }
toml = "*"
xdg = "*"
