[package]
name = "pathscan"
version = "0.1.0"
edition = "2021"
publish = false

[dependencies]
iced = { version = "=0.14.0", default-features = false, features = ["tokio", "sipper", "tiny-skia", "x11"] }
rfd = { version = "=0.17.2", default-features = false, features = ["xdg-portal"] }
tokio = { version = "=1.54.1", features = ["fs", "time"] }
tokio-util = "=0.7.20"

[dev-dependencies]
csv = "=1.4.0"
