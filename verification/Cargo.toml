[package]
name = "win_ocr"
version = "0.1.0"
edition = "2021"
publish = false

[dependencies]
windows = { version = "=0.44.0", features = ["Globalization", "Graphics_Imaging", "Media_Ocr", "Storage", "Storage_Streams", "Foundation", "Foundation_Collections"] }
