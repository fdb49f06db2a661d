[package]
name = "portable_launcher"
version = "0.1.0"
edition = "2021"
publish = false

[dependencies]
anyhow = "=1.0.104"
chrono = { version = "=0.4.45", default-features = false, features = ["clock"] }
glob = "=0.3.4"
regex = "=1.13.1"
walkdir = "=2.5.0"
winapi = { version = "=0.3.9", features = ["winuser", "processthreadsapi", "errhandlingapi", "handleapi", "wincon"] }
