[package]
name = "whisper_gui"
version = "0.4.0"
edition = "2021"
publish = false

[dependencies]
ferrous-opencc = "=0.4.0"
symspell = "=0.5.2"
dirs = "=7.0.0"
anyhow = "=1.0.104"
chrono = "=0.4.45"
serde = { version = "=1.0.229", features = ["derive"] }
serde_json = "=1.0.154"
tokio = { version = "=1.54.1", features = ["rt"] }
reqwest = { version = "=0.13.5", default-features = false, features = ["blocking", "json"] }
languagetool-rust = { version = "=3.0.1", default-features = false }
cpal = "*"
arboard = { version = "*", default-features = false }
enigo = "*"
global-hotkey = "*"
whisper-rs = "*"
winapi = { version = "*", features = ["winuser", "windef"] }
