[package]
name = "may_signal"
version = "0.1.0"
edition = "2021"
publish = false

[dependencies]
may = "*"
libc = "0.2"
winapi = { version = "0.3", features = ["wincon", "minwindef", "consoleapi"] }
