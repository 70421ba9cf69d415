[package]
name = "lpc8xx_hal"
version = "0.1.0"
edition = "2021"
publish = false

[dependencies]
embedded-hal = { version = "0.2", features = ["unproven"] }
nb = "1"
void = { version = "1", default-features = false }
