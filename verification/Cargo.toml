[package]
name = "platformer_core"
version = "0.1.0"
edition = "2021"
publish = false

[dependencies]
avian2d = { version = "=0.1.2", default-features = false, features = ["2d", "f32", "parry-f32"] }
bevy = { version = "=0.14.2", default-features = false }
clap = "=2.34.0"
float-ord = "=0.3.2"
rusqlite = { version = "=0.19.0", features = ["bundled"] }
scrawl = "=0.9.0"
serde = { version = "=1.0.229", features = ["derive"] }
serde_json = "=1.0.154"
tera = "=0.11.20"
user-error = "=1.0.5"
