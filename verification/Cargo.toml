[package]
name = "northline_core"
version = "0.1.0"
edition = "2021"
publish = false

[dependencies]
uuid = "1"
thiserror = "1"
slint = { version = "1", default-features = false, features = ["std", "compat-1-2"] }
