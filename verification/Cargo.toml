[package]
name = "sound_hearing_aid"
version = "0.1.0"
edition = "2021"
publish = false

[dependencies]
bytemuck = "1.25.2"
raw-window-handle = "0.6.2"
objc2 = "0.6.5"
objc2-app-kit = "0.3.2"
screencapturekit = "11.1.2"
