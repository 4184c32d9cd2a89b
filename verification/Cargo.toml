[package]
name = "strings"
version = "0.1.0"
edition = "2021"
publish = false

[dependencies]
portable-atomic = "1"
once_cell = "1"
tracing = "0.1"
tracing-subscriber = "0.3"
colored = "2"
winit = { version = "0.30", default-features = false, features = ["x11", "rwh_06"] }
accesskit_winit = { version = "*", default-features = false, features = ["rwh_06"] }
x11rb = "0.13"
