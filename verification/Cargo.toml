[package]
name = "fff_daemon"
version = "0.1.0"
edition = "2021"
publish = false

[dependencies]
clap = { version = "4", features = ["derive"] }
git2 = { version = "=0.20.4", default-features = false }
libc = "0.2"
mimalloc = "0.1"
mlua = { version = "0.11", features = ["luajit", "module"] }
neo_frizbee = "0.10"
once_cell = "1"
rmp-serde = "=1.3.1"
serde = { version = "1", features = ["derive"] }
tokio = { version = "1", features = ["full"] }
tracing = "0.1"
tracing-subscriber = { version = "0.3", features = ["env-filter"] }
