[package]
name = "terminal_arena"
version = "0.1.0"
edition = "2021"
publish = false

[dependencies]
rand = "0.8"
serde = { version = "1", features = ["derive"] }
serde_json = "1"
dialoguer = "0.11"
console = "0.15"
crossterm = "0.27"
prettytable-rs = "0.10"
