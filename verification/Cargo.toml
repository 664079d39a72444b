[package]
name = "starry_api"
version = "0.1.0"
edition = "2021"
publish = false

[dependencies]
axerrno = "=0.1.2"
axhal = { version = "=0.3.0-preview.3", default-features = false }
axtask = { version = "=0.3.0-preview.3", default-features = false, features = ["multitask"] }
arceos_posix_api = { version = "=0.3.0-preview.3", default-features = false }
x86 = "=0.52.0"
