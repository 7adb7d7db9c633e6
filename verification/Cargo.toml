[package]
name = "wii_disc_info"
version = "0.1.0"
edition = "2021"
publish = false

[dependencies]
miniz_oxide = "*"
futures = "*"
futures-executor = "*"
futures-util = "*"
thiserror = "*"
