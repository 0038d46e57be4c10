[package]
name = "zetalan"
version = "0.1.0"
edition = "2021"
publish = false

[dependencies]
chrono = "0.4"
rand = "0.9"
rand_chacha = "0.9"
tokio = { version = "1", features = ["net", "rt", "rt-multi-thread", "macros", "time"] }
socket2 = "0.5"
ratatui = "0.29"
crossterm = "0.28"
tui-big-text = "0.7"
