[package]
name = "libaurex"
version = "0.1.0"
edition = "2021"
publish = false

[dependencies]
bytemuck = "*"
crossbeam-channel = "*"
dart-sys = "*"
ffmpeg-next = "*"
flutter_rust_bridge = "*"
miniaudio_aurex = "*"
soxr = "*"
tokio = { version = "*", features = ["sync", "rt-multi-thread", "macros", "time"] }
uniffi = "*"
