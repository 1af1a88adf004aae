[package]
name = "iced_sctk"
version = "0.1.0"
edition = "2021"
publish = false

[dependencies]
iced_core = "0.12"
iced_runtime = "0.12"
smithay-client-toolkit = { version = "0.18", default-features = false }
wayland-protocols = { version = "0.31", features = ["client"] }
xkeysym = "0.2"
xkbcommon = { version = "0.7", default-features = false }
