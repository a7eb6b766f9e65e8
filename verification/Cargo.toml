[package]
name = "workspace_events"
version = "0.1.0"
edition = "2021"
publish = false

[dependencies]
tokio = { version = "1", default-features = false, features = ["rt-multi-thread", "sync", "macros", "time"] }
swayipc-async = "*"
futures-util = { version = "0.3", default-features = false, features = ["std"] }
hyprland = "0.3"
