[package]
name = "beautiful_app"
version = "0.1.0"
edition = "2021"
publish = false

[dependencies]
arboard = "3"
discord-rich-presence = "*"
egui = { version = "*", default-features = false }
gilrs = "*"
image = { version = "0.25", default-features = false, features = ["png", "jpeg"] }
rayon = "1"
rfd = "*"
serde = { version = "1", features = ["derive"] }
serde_json = "1"
