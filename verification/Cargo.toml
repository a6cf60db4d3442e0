[package]
name = "gd32e103_hal"
version = "0.1.0"
edition = "2021"
publish = false

[dependencies]
embedded-hal = { version = "=0.2.7", features = ["unproven"] }
nb = "=1.1.0"
void = "=1.0.2"
