[package]
name = "pomodoro_notify"
version = "0.1.0"
edition = "2021"
publish = false

[dependencies]
clap = { version = "*", features = ["derive"] }
crossterm = "*"
indicatif = "*"
tokio = { version = "*", features = ["rt-multi-thread", "macros", "time"] }
zbus = "*"
