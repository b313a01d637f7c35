[package]
name = "airgradient_desktop"
version = "0.1.0"
edition = "2021"
publish = false

[dependencies]
serde = { version = "1", features = ["derive"] }
serde_json = "1"
relm4 = { version = "0.11", features = ["libadwaita", "macros", "gnome_45"] }
ksni = "0.3"
