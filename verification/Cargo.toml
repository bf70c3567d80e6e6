[package]
name = "nts"
version = "0.1.0"
edition = "2021"
publish = false

[dependencies]
anyhow = "1"
block2 = "*"
chrono = "0.4"
crossterm = "*"
image = { version = "0.25", default-features = false, features = ["jpeg", "png", "webp", "gif"] }
libc = "0.2"
objc2 = "*"
objc2-foundation = "*"
objc2-media-player = "*"
ratatui = { version = "*", features = ["unstable-rendered-line-info"] }
ratatui-image = { version = "*", default-features = false, features = ["crossterm"] }
reqwest = { version = "0.12", default-features = false, features = ["blocking", "json", "rustls-tls"] }
serde = { version = "1", features = ["derive"] }
serde_json = "1"
signal-hook = "*"
