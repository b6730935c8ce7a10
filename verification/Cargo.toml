[package]
name = "capture_serial_core"
version = "0.1.0"
edition = "2021"
publish = false

[dependencies]
base64-simd = "=0.8.0"
fast_image_resize = "=6.1.0"
jpeg-encoder = "=0.7.1"
mouse_position = "=0.1.4"
serialport = { version = "=4.10.1", default-features = false }
xcap = "=0.9.8"

[dev-dependencies]
jpeg-decoder = "=0.3.2"
