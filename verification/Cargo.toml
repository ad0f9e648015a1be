[package]
name = "native_activity"
version = "0.1.0"
edition = "2021"
publish = false

[dependencies]
android_logger = "=0.15.1"
khronos-egl = { version = "=6.0.0", features = ["static"] }
log = "=0.4.34"
ndk-sys = { version = "=0.6.0", features = ["test"] }
skia-safe = { version = "=0.153.3", features = ["gl"] }
