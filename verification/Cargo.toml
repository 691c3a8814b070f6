[package]
name = "trigger_overlay"
version = "0.1.0"
edition = "2021"
publish = false

[dependencies]
circular-queue = "=0.2.7"
