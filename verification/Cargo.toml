[package]
name = "schematic_editor"
version = "0.1.0"
edition = "2021"
publish = false

[dependencies]
serde = { version = "1", features = ["derive"] }
toml = "*"

[dev-dependencies]
undo = "0.52"
