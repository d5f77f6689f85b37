[package]
name = "lnk"
version = "0.1.0"
edition = "2021"
publish = false

[dependencies]
byteorder = "=1.5.0"
chrono = "=0.4.45"
serde = { version = "=1.0.229", features = ["derive"] }
winparsingtools = "=2.1.4"
actix = "=0.13.5"
actix-web = "=4.18.1"
actix-files = "=0.6.10"
actix-web-actors = "=4.3.1"
windows = { version = "=0.58.0", features = ["Win32_Foundation", "Win32_Security", "Win32_Storage_FileSystem", "Win32_System_Console", "Win32_System_Pipes", "Win32_System_Threading"] }
