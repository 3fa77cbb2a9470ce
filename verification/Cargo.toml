[package]
name = "event_translate"
version = "0.1.0"
edition = "2021"
publish = false

[dependencies]
x11-dl = "2"
