[package]
name = "godot_python"
version = "0.1.0"
edition = "2021"
publish = false

[dependencies]
rustpython-vm = { version = "=0.5.0", default-features = false, features = ["compiler", "gc", "importlib", "stdio"] }
indexmap = "=2.14.2"
godot = "=0.5.5"
wasm-bindgen = "=0.2.129"
js-sys = "=0.3.106"
web-sys = { version = "=0.3.106", features = ["console", "Window"] }
console_error_panic_hook = "=0.1.7"
cfg-if = "=1.0.5"
