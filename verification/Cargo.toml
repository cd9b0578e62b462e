[package]
name = "spellpaste"
version = "0.1.0"
edition = "2021"
publish = false

[dependencies]
arboard = "=3.7.0"
enigo = "=0.6.1"
objc = "=0.2.7"
serde = { version = "=1.0.229", features = ["derive"] }
serde_json = "=1.0.154"
winapi = { version = "=0.3.9", features = ["windef", "winuser"] }
