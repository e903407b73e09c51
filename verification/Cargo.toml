[package]
name = "game_engine"
version = "0.1.0"
edition = "2021"
publish = false

[dependencies]
smallvec = "=1.16.4"
nalgebra = "=0.35.0"
legion = "=0.2.4"
serde = { version = "=1.0.229", features = ["derive"] }
shrev = "=1.1.3"
winit = "=0.19.5"
log = "=0.4.34"
fern = "=0.5.9"
syn = "1"
quote = "1"
proc-macro2 = "1"
