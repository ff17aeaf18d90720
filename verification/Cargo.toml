[package]
name = "vivi"
version = "0.1.0"
edition = "2021"
publish = false

[dependencies]
sha2 = "0.10"
image = { version = "0.25", default-features = false, features = ["png", "jpeg", "gif", "webp", "bmp", "tiff", "ico"] }
clap = { version = "4", features = ["derive", "env"] }
crossterm = "0.28"
libc = "0.2"
cpal = "*"
ringbuf = "0.4"
