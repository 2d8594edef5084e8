[package]
name = "scrollbarmpris"
version = "0.1.0"
edition = "2021"
publish = false

[dependencies]
anyhow = "*"
clap = { version = "*", features = ["derive"] }
dbus = "*"
dbus-tokio = "*"
once_cell = "*"
serde = { version = "*", features = ["derive"] }
serde_json = "*"
thiserror = "*"
tokio = { version = "*", features = ["macros", "rt-multi-thread", "sync", "time"] }
