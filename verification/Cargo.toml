[package]
name = "niveluno"
version = "0.1.0"
edition = "2021"
publish = false

[dependencies]
serde = { version = "1", features = ["derive"] }
serde_json = "1"
thiserror = "1"
gl = "0.14"
gltf = { version = "1", default-features = false, features = ["import", "extras", "names", "utils"] }
rand = "0.8"
minipng = "*"
sdl2 = { version = "0.37", features = ["mixer", "ttf"] }
