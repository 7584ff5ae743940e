[package]
name = "chip8_core"
version = "0.1.0"
edition = "2021"
publish = false

[dependencies]
rand = "0.8"
sdl2 = "0.37"
rodio = { version = "0.19", default-features = false }
wasm-bindgen = "0.2"
js-sys = "0.3"
web-sys = { version = "0.3", features = ["AudioContext", "BaseAudioContext", "OscillatorNode", "OscillatorType", "AudioParam", "AudioNode", "AudioDestinationNode", "AudioScheduledSourceNode", "console", "CanvasRenderingContext2d", "HtmlCanvasElement", "KeyboardEvent", "Window", "Document", "Element"] }
