[package]
name = "canvas_events"
version = "0.1.0"
edition = "2021"
publish = false

[dependencies]
stdweb = "0.4"
nalgebra = { version = "0.32", default-features = false, features = ["std"] }
