[package]
name = "stft"
version = "0.3.0"
edition = "2021"
publish = false

[dependencies]
apodize = "1"
num = "0.4"
rustfft = "6"
strider = "0.1"
