[package]
name = "qml_video_rs"
version = "0.1.0"
edition = "2021"
publish = false

[dependencies]
qmetaobject = { version = "0.2", default-features = false }
cpp = "0.5"
cstr = "0.2"
