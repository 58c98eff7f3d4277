[package]
name = "servo-scraper"
version = "0.1.0"
edition = "2021"
publish = false

[dependencies]
url = "*"
serde = { version = "*", features = ["derive"] }
serde_json = "*"
base64 = "*"
image = { version = "*", default-features = false, features = ["png", "jpeg", "bmp"] }
dpi = "*"
libc = "*"
rustls = "*"
log = "*"
bpaf = { version = "*", features = ["derive"] }
