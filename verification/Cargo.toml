[package]
name = "anticheat_bridge"
version = "0.1.0"
edition = "2021"
publish = false

[dependencies]
serde_json = "1"
jni = "0.21"
ndk-context = "0.1"
tauri = { version = "2", default-features = false }
