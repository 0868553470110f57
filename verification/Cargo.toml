[package]
name = "dpc_theme"
version = "0.1.0"
edition = "2021"
publish = false

[dependencies]
anstyle = "1"
clap = { version = "4", features = ["derive"] }
palette = { version = "0.7", default-features = false, features = ["std"] }
