[package]
name = "video_interop"
version = "0.1.2"
edition = "2021"
publish = false

[dependencies]
ash = { version = "0.38", default-features = false, features = ["std", "debug"] }
libc = "0.2"
rustler = "*"
thiserror = "2"
