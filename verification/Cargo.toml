[package]
name = "cratui"
version = "0.1.0"
edition = "2021"
publish = false

[dependencies]
anyhow = "1"
crossterm = "0.25"
directories = "4"
open = "3"
serde = { version = "1", features = ["derive"] }
toml = "0.7"
toml_edit = "0.19"
tui = "0.19"
ureq = { version = "2", features = ["json"] }
