[package]
name = "voice_poc"
version = "0.1.0"
edition = "2021"
publish = false

[dependencies]
clap = "2"
deepspeech = "0.9"
sdl2 = { version = "0.35", features = ["ttf"] }
