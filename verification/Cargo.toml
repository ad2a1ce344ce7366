[package]
name = "workout_guide"
version = "0.1.0"
edition = "2021"
publish = false

[dependencies]
chrono = { version = "=0.4.45", default-features = false, features = ["clock", "std"] }
seed = { version = "=0.10.0", features = ["routing"] }
web-sys = { version = "=0.3.106", features = ["AudioContext", "AudioDestinationNode", "AudioNode", "AudioParam", "Element", "GainNode", "Notification", "NotificationOptions", "OscillatorNode", "ScrollBehavior", "ScrollIntoViewOptions", "ScrollLogicalPosition"] }
