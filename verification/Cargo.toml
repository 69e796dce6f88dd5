[package]
name = "screen_macro"
version = "0.1.0"
edition = "2021"
publish = false

[dependencies]
image = "=0.22.5"
autopilot = "=0.4.1"
