[package]
name = "automate"
version = "0.1.0"
edition = "2021"
publish = false

[dependencies]
egui = "0.29"
egui_extras = "0.29"
egui-phosphor = "0.7"
uuid = { version = "1", features = ["v4"] }
serde = { version = "1", features = ["derive"] }
bincode = "1"
zip = { version = "2", default-features = false, features = ["deflate"] }
rdev = "0.5"
log = "0.4"
image = { version = "0.25", default-features = false, features = ["png"] }
