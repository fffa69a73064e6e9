[package]
name = "photobot"
version = "0.1.0"
edition = "2021"
publish = false

[dependencies]
adler32 = "1"
anyhow = "1"
chrono = { version = "0.4", default-features = false, features = ["std"] }
clap = { version = "4", features = ["derive"] }
globset = "0.4"
once_cell = "1"
pickledb = "0.5"
serde = { version = "1", features = ["derive"] }
serde_json = "1"
walkdir = "2"
