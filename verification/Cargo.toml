[package]
name = "rabbitui"
version = "0.1.0"
edition = "2021"
publish = false

[dependencies]
clap = "*"
clipboard = "*"
dirs = "*"
reqwest = { version = "0.11", default-features = false, features = ["blocking", "json"] }
serde = { version = "1", features = ["derive"] }
termion = "1"
tui = "0.14"
